//! The calls into the Java native interface, and the types that pass through
//! them. Nothing in this file is proved: each function states what the `jni`
//! crate is taken to do, and the rest of the library is verified against that.
//!
//! Every outcome here depends on the running host, so no function promises
//! more than that it returns.
use jni::errors::Error;
use jni::objects::{JClass, JObject, JString, JValue, JValueGen};
use jni::JNIEnv;
use vstd::prelude::*;

use crate::names::single_parameter_list;

verus! {

/// `jni::JNIEnv`: the handle to the host runtime for the attached thread.
#[verifier::external_type_specification]
#[verifier::external_body]
pub struct ExJNIEnv<'local>(JNIEnv<'local>);

/// `jni::objects::JObject`: a reference to an object of the host.
#[verifier::external_type_specification]
#[verifier::external_body]
pub struct ExJObject<'local>(JObject<'local>);

/// `jni::sys::_jobject`: what a `JObject` refers to; never inspected here.
#[verifier::external_type_specification]
#[verifier::external_body]
pub struct ExHostObject(jni::sys::_jobject);

/// `jni::objects::JClass`: a reference to a class of the host.
#[verifier::external_type_specification]
#[verifier::external_body]
pub struct ExJClass<'local>(JClass<'local>);

/// `jni::objects::JValueGen`: a value handed to or returned by the host.
#[verifier::external_type_specification]
#[verifier::external_body]
#[verifier::reject_recursive_types(O)]
pub struct ExJValueGen<O>(JValueGen<O>);

/// `jni::errors::Error`: why a call into the host failed.
#[verifier::external_type_specification]
#[verifier::external_body]
pub struct ExError(Error);

/// `JNIEnv::find_class`: looks a class up by its qualified name. Which names
/// resolve is for the host to say.
#[verifier::external_body]
pub(crate) fn find_class<'local>(env: &mut JNIEnv<'local>, path: &str) -> (r: Result<
    JClass<'local>,
    Error,
>) {
    env.find_class(path)
}

/// `JNIEnv::get_static_field`: reads a static field of a class, given the
/// field's name and type.
#[verifier::external_body]
pub(crate) fn get_static_field<'local>(
    env: &mut JNIEnv<'local>,
    class: &JClass<'_>,
    field: &str,
    field_type: &str,
) -> (r: Result<JValueGen<JObject<'local>>, Error>) {
    env.get_static_field(class, field, field_type)
}

/// `JNIEnv::new_object`: constructs an object of a class through the
/// constructor with the given signature. The arguments are handed on as
/// object references. The crate aborts on a signature with a parameter list
/// nested in another, so such a signature is not accepted.
#[verifier::external_body]
pub(crate) fn new_object<'local>(
    env: &mut JNIEnv<'local>,
    class: &JClass<'_>,
    signature: &str,
    arguments: &[&JObject<'_>],
) -> (r: Result<JObject<'local>, Error>)
    requires
        single_parameter_list(signature@),
{
    let values: Vec<JValue> = arguments.iter().map(|o| JValue::Object(*o)).collect();
    env.new_object(class, signature, &values)
}

/// `JNIEnv::call_method`: invokes a method on an object. The arguments are
/// handed on as object references. The crate aborts on a signature with a
/// parameter list nested in another, so such a signature is not accepted.
#[verifier::external_body]
pub(crate) fn call_method<'local>(
    env: &mut JNIEnv<'local>,
    target: &JObject<'_>,
    name: &str,
    signature: &str,
    arguments: &[&JObject<'_>],
) -> (r: Result<JValueGen<JObject<'local>>, Error>)
    requires
        single_parameter_list(signature@),
{
    let values: Vec<JValue> = arguments.iter().map(|o| JValue::Object(*o)).collect();
    env.call_method(target, name, signature, &values)
}

/// `JNIEnv::call_static_method`: invokes a static method of a class, under
/// the same terms as `call_method`.
#[verifier::external_body]
pub(crate) fn call_static_method<'local>(
    env: &mut JNIEnv<'local>,
    class: &JClass<'_>,
    name: &str,
    signature: &str,
    arguments: &[&JObject<'_>],
) -> (r: Result<JValueGen<JObject<'local>>, Error>)
    requires
        single_parameter_list(signature@),
{
    let values: Vec<JValue> = arguments.iter().map(|o| JValue::Object(*o)).collect();
    env.call_static_method(class, name, signature, &values)
}

/// `JNIEnv::new_string`: makes a string of the host from text. The result is
/// handed back as a plain object reference.
#[verifier::external_body]
pub(crate) fn new_string<'local>(env: &mut JNIEnv<'local>, text: &str) -> (r: Result<
    JObject<'local>,
    Error,
>) {
    env.new_string(text).map(JObject::from)
}

/// `JNIEnv::get_string`: reads the text of a string of the host. It fails on
/// a null reference and on an object that is no string.
#[verifier::external_body]
pub(crate) fn get_string(env: &mut JNIEnv<'_>, text: &JObject<'_>) -> (r: Result<String, Error>) {
    env.get_string(text.into()).map(String::from)
}

/// `JValueGen::l`: takes the object reference out of a returned value, and
/// fails where the value is of a primitive type or void.
#[verifier::external_body]
pub(crate) fn into_object<'local>(value: JValueGen<JObject<'local>>) -> (r: Result<
    JObject<'local>,
    Error,
>) {
    value.l()
}

/// `JString::default`: the null reference, which stands for an absent
/// string.
#[verifier::external_body]
pub(crate) fn null_string() -> (r: JObject<'static>) {
    JObject::from(JString::default())
}

} // verus!
