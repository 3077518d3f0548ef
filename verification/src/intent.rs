//! The request object and its builder.
//!
//! Every operation is a short, fixed sequence of calls into the host. Whether
//! a call succeeds is for the host to say; what is proved here is what
//! happens on each outcome: which operations a handle has on record, that
//! the handle keeps its object, and that a failure, once it has occurred,
//! suppresses every later operation and is the one reported at the end.
use jni::objects::JObject;
use jni::JNIEnv;
use vstd::prelude::*;

use crate::error::{settle, FailureKind, IntentError};
use crate::jvm::{
    call_method, call_static_method, find_class, get_static_field, get_string, into_object,
    new_object, new_string, null_string,
};
use crate::names::{action_field_type, Class, Constructor, Method};

verus! {

/// One operation on a request, with the text that was handed to the host.
pub enum Step {
    Construct { action: Seq<char>, uri: Option<Seq<char>> },
    SetClassName { package_name: Seq<char>, class_name: Seq<char> },
    PutExtra { key: Seq<char>, value: Seq<char> },
    SetType { mime_type: Seq<char> },
    Chooser { title: Option<Seq<char>> },
}

impl Step {
    /// The host method that carries the operation out. A construction has
    /// none: it goes through a constructor of the request class.
    pub open spec fn method(self) -> Option<Method> {
        match self {
            Step::Construct { .. } => None,
            Step::SetClassName { .. } => Some(Method::SetClassName),
            Step::PutExtra { .. } => Some(Method::PutExtra),
            Step::SetType { .. } => Some(Method::SetType),
            Step::Chooser { .. } => Some(Method::CreateChooser),
        }
    }
}

/// What a builder stands for: a request in progress, with the object it owns
/// and the operations that the library has on record for it, or the first
/// failure.
pub enum State<'env> {
    InProgress { subject: JObject<'env>, steps: Seq<Step> },
    Failed(IntentError),
}

/// A constructor's outcome: a request with the construction as its only
/// operation on record, or a construction failure.
pub open spec fn begun<'env>(step: Step, post: State<'env>) -> bool {
    match post {
        State::InProgress { subject, steps } => steps == Seq::<Step>::empty().push(step),
        State::Failed(error) => error.kind == FailureKind::ConstructionFailure,
    }
}

/// A configuring operation's outcome. On a failed builder it changes nothing.
/// On a request in progress it either puts the operation on record, keeping
/// the object unless the operation is the one that wraps it, or fails with a
/// construction failure.
pub open spec fn configured<'env>(pre: State<'env>, step: Step, post: State<'env>) -> bool {
    match pre {
        State::Failed(_) => post == pre,
        State::InProgress { subject, steps } => match post {
            State::InProgress { subject: kept, steps: recorded } => {
                &&& recorded == steps.push(step)
                &&& step is Chooser || kept == subject
            },
            State::Failed(error) => error.kind == FailureKind::ConstructionFailure,
        },
    }
}

/// The outcome of dispatching: a failed builder reports its failure, and a
/// failure of the dispatch itself is a construction failure.
pub open spec fn dispatched<'env>(pre: State<'env>, result: Result<(), IntentError>) -> bool {
    match pre {
        State::Failed(error) => result == Err::<(), IntentError>(error),
        State::InProgress { .. } => result matches Err(error) ==> error.kind
            == FailureKind::ConstructionFailure,
    }
}

/// A request object of the host, with the environment through which it is
/// reached.
#[must_use]
pub struct Intent<'vm, 'env> {
    env: &'vm mut JNIEnv<'env>,
    object: JObject<'env>,
    steps: Ghost<Seq<Step>>,
}

impl<'vm, 'env> Intent<'vm, 'env> {
    /// The object of the host that this handle owns.
    pub closed spec fn subject(&self) -> JObject<'env> {
        self.object
    }

    /// The operations that the library has on record for this handle, in
    /// order.
    pub closed spec fn steps(&self) -> Seq<Step> {
        self.steps@
    }

    /// Takes over an existing request, such as the one that was delivered to
    /// the running component. Nothing is on record for it.
    pub fn from_object(env: &'vm mut JNIEnv<'env>, object: JObject<'env>) -> (r: Self)
        ensures
            r.subject() == object,
            r.steps() == Seq::<Step>::empty(),
    {
        Intent { env, object, steps: Ghost(Seq::empty()) }
    }

    /// The request's action. Reading changes neither the handle's object nor
    /// its record; a failure is a query failure.
    pub fn action(&mut self) -> (r: Result<String, IntentError>)
        ensures
            final(self).subject() == old(self).subject(),
            final(self).steps() == old(self).steps(),
            r matches Err(error) ==> error.kind == FailureKind::QueryFailure,
    {
        self.read_text(Method::GetAction, &[])
    }

    /// The request's data, as text. Reading changes neither the handle's
    /// object nor its record; a failure is a query failure.
    pub fn data_string(&mut self) -> (r: Result<String, IntentError>)
        ensures
            final(self).subject() == old(self).subject(),
            final(self).steps() == old(self).steps(),
            r matches Err(error) ==> error.kind == FailureKind::QueryFailure,
    {
        self.read_text(Method::GetDataString, &[])
    }

    /// The text attached under `name`. An extra that is absent is a query
    /// failure, as is every other failure. Reading changes neither the
    /// handle's object nor its record.
    pub fn string_extra(&mut self, name: &str) -> (r: Result<String, IntentError>)
        ensures
            final(self).subject() == old(self).subject(),
            final(self).steps() == old(self).steps(),
            r matches Err(error) ==> error.kind == FailureKind::QueryFailure,
    {
        match settle(new_string(self.env, name), FailureKind::QueryFailure) {
            Ok(key) => self.read_text(Method::GetStringExtra, &[&key]),
            Err(error) => Err(error),
        }
    }

    /// Invokes a method that returns a string on the request, and reads the
    /// text out of what came back.
    fn read_text(&mut self, method: Method, arguments: &[&JObject<'_>]) -> (r: Result<
        String,
        IntentError,
    >)
        ensures
            final(self).subject() == old(self).subject(),
            final(self).steps() == old(self).steps(),
            r matches Err(error) ==> error.kind == FailureKind::QueryFailure,
    {
        let returned = call_method(
            self.env,
            &self.object,
            method.name(),
            method.signature(),
            arguments,
        );
        let text = match settle(returned, FailureKind::QueryFailure) {
            Ok(value) => settle(into_object(value), FailureKind::QueryFailure),
            Err(error) => Err(error),
        };
        match text {
            Ok(text) => settle(get_string(self.env, &text), FailureKind::QueryFailure),
            Err(error) => Err(error),
        }
    }

    /// Makes a string of the host for an argument.
    fn marshal(&mut self, text: &str) -> (r: Result<JObject<'env>, IntentError>)
        ensures
            final(self).subject() == old(self).subject(),
            final(self).steps() == old(self).steps(),
            r matches Err(error) ==> error.kind == FailureKind::ConstructionFailure,
    {
        settle(new_string(self.env, text), FailureKind::ConstructionFailure)
    }

    /// Invokes a configuring method on the request, and puts the step on
    /// record where the call returned without a failure.
    fn configure(self, method: Method, arguments: &[&JObject<'_>], step: Ghost<Step>) -> (r:
        Result<Self, IntentError>)
        requires
            step@.method() == Some(method),
            !(step@ is Chooser),
        ensures
            configured(
                State::InProgress { subject: self.subject(), steps: self.steps() },
                step@,
                outcome(r),
            ),
            r is Ok ==> r->Ok_0.subject() == self.subject(),
    {
        let mut intent = self;
        let returned = call_method(
            intent.env,
            &intent.object,
            method.name(),
            method.signature(),
            arguments,
        );
        intent.conclude(settle(returned, FailureKind::ConstructionFailure), step)
    }

    /// What becomes of the request once the host has answered: without a
    /// failure, the step goes on record and the request stays as it is; with
    /// one, the failure takes the request's place.
    fn conclude<T>(self, answer: Result<T, IntentError>, step: Ghost<Step>) -> (r: Result<
        Self,
        IntentError,
    >)
        ensures
            match answer {
                Ok(_) => {
                    &&& r is Ok
                    &&& r->Ok_0.subject() == self.subject()
                    &&& r->Ok_0.steps() == self.steps().push(step@)
                },
                Err(error) => r == Err::<Self, IntentError>(error),
            },
    {
        let Intent { env, object, steps } = self;
        match answer {
            Ok(_) => Ok(Intent { env, object, steps: Ghost(steps@.push(step@)) }),
            Err(error) => Err(error),
        }
    }
}

/// The state that a result of an operation on a request stands for.
pub closed spec fn outcome<'vm, 'env>(inner: Result<Intent<'vm, 'env>, IntentError>) -> State<
    'env,
> {
    match inner {
        Ok(intent) => State::InProgress { subject: intent.object, steps: intent.steps@ },
        Err(error) => State::Failed(error),
    }
}

/// A request under construction. Its operations can be chained without a
/// test in between: after the first failure the rest do nothing, and the
/// failure comes out when the request is dispatched.
#[must_use]
pub struct IntentBuilder<'vm, 'env> {
    inner: Result<Intent<'vm, 'env>, IntentError>,
}

impl<'vm, 'env> IntentBuilder<'vm, 'env> {
    /// What the builder stands for.
    pub closed spec fn state(&self) -> State<'env> {
        outcome(self.inner)
    }

    /// A builder for an existing request.
    pub fn from_object(env: &'vm mut JNIEnv<'env>, object: JObject<'env>) -> (r: Self)
        ensures
            r.state() == (State::InProgress { subject: object, steps: Seq::<Step>::empty() }),
    {
        IntentBuilder { inner: Ok(Intent::from_object(env, object)) }
    }

    /// Constructs a request for the action that the host's request class
    /// names `action`.
    pub fn new(env: &'vm mut JNIEnv<'env>, action: &str) -> (r: Self)
        ensures
            begun(Step::Construct { action: action@, uri: None }, r.state()),
    {
        Self::construct(env, action, None, Ghost(None))
    }

    /// Constructs a request for an action on the data that `uri` names. The
    /// host parses the text; where it rejects it, the builder has failed.
    pub fn new_with_uri(env: &'env mut JNIEnv<'env>, action: &str, uri: &str) -> (r: IntentBuilder<
        'env,
        'env,
    >)
        ensures
            begun(Step::Construct { action: action@, uri: Some(uri@) }, r.state()),
    {
        let kind = FailureKind::ConstructionFailure;
        let text = match settle(new_string(env, uri), kind) {
            Ok(text) => text,
            Err(error) => return IntentBuilder { inner: Err(error) },
        };
        let class = match settle(find_class(env, Class::Uri.path()), kind) {
            Ok(class) => class,
            Err(error) => return IntentBuilder { inner: Err(error) },
        };
        let parse = Method::ParseUri;
        let parsed = call_static_method(env, &class, parse.name(), parse.signature(), &[&text]);
        let parsed = match settle(parsed, kind) {
            Ok(value) => settle(into_object(value), kind),
            Err(error) => Err(error),
        };
        match parsed {
            Ok(data) => IntentBuilder::construct(env, action, Some(data), Ghost(Some(uri@))),
            Err(error) => IntentBuilder { inner: Err(error) },
        }
    }

    /// Looks the action up on the request class and constructs the request,
    /// with the data where there is any.
    fn construct(
        env: &'vm mut JNIEnv<'env>,
        action: &str,
        data: Option<JObject<'env>>,
        uri: Ghost<Option<Seq<char>>>,
    ) -> (r: Self)
        requires
            data is Some <==> uri@ is Some,
        ensures
            begun(Step::Construct { action: action@, uri: uri@ }, r.state()),
    {
        let kind = FailureKind::ConstructionFailure;
        let class = match settle(find_class(env, Class::Intent.path()), kind) {
            Ok(class) => class,
            Err(error) => return IntentBuilder { inner: Err(error) },
        };
        let constant = get_static_field(env, &class, action, action_field_type());
        let constant = match settle(constant, kind) {
            Ok(value) => settle(into_object(value), kind),
            Err(error) => Err(error),
        };
        let constant = match constant {
            Ok(object) => object,
            Err(error) => return IntentBuilder { inner: Err(error) },
        };
        let made = match data {
            None => new_object(env, &class, Constructor::FromAction.signature(), &[&constant]),
            Some(data) => new_object(
                env,
                &class,
                Constructor::FromActionAndUri.signature(),
                &[&constant, &data],
            ),
        };
        let record = Ghost(
            Seq::<Step>::empty().push(Step::Construct { action: action@, uri: uri@ }),
        );
        Self::adopt(env, settle(made, kind), record)
    }

    /// What becomes of the builder once the host has answered a request for
    /// an object: the object it returned is the one the builder owns, with
    /// `record` for its record; a failure takes the builder's place.
    fn adopt(
        env: &'vm mut JNIEnv<'env>,
        made: Result<JObject<'env>, IntentError>,
        record: Ghost<Seq<Step>>,
    ) -> (r: Self)
        ensures
            match made {
                Ok(object) => r.state() == (State::InProgress { subject: object, steps: record@ }),
                Err(error) => r.state() == State::<'env>::Failed(error),
            },
    {
        match made {
            Ok(object) => IntentBuilder { inner: Ok(Intent { env, object, steps: record }) },
            Err(error) => IntentBuilder { inner: Err(error) },
        }
    }

    /// Restricts the request to one component, named by its package and its
    /// class.
    pub fn set_class_name(self, package_name: &str, class_name: &str) -> (r: Self)
        ensures
            configured(
                self.state(),
                Step::SetClassName { package_name: package_name@, class_name: class_name@ },
                r.state(),
            ),
    {
        let mut intent = match self.inner {
            Ok(intent) => intent,
            Err(error) => return IntentBuilder { inner: Err(error) },
        };
        let package = match intent.marshal(package_name) {
            Ok(text) => text,
            Err(error) => return IntentBuilder { inner: Err(error) },
        };
        let class = match intent.marshal(class_name) {
            Ok(text) => text,
            Err(error) => return IntentBuilder { inner: Err(error) },
        };
        let step = Ghost(
            Step::SetClassName { package_name: package_name@, class_name: class_name@ },
        );
        IntentBuilder { inner: intent.configure(Method::SetClassName, &[&package, &class], step) }
    }

    /// Attaches `value` under `key`. Keys are not compared here: where one is
    /// used twice, both operations reach the host, in order.
    pub fn with_extra(self, key: &str, value: &str) -> (r: Self)
        ensures
            configured(self.state(), Step::PutExtra { key: key@, value: value@ }, r.state()),
    {
        let mut intent = match self.inner {
            Ok(intent) => intent,
            Err(error) => return IntentBuilder { inner: Err(error) },
        };
        let key_text = match intent.marshal(key) {
            Ok(text) => text,
            Err(error) => return IntentBuilder { inner: Err(error) },
        };
        let value_text = match intent.marshal(value) {
            Ok(text) => text,
            Err(error) => return IntentBuilder { inner: Err(error) },
        };
        let step = Ghost(Step::PutExtra { key: key@, value: value@ });
        IntentBuilder { inner: intent.configure(Method::PutExtra, &[&key_text, &value_text], step) }
    }

    /// Wraps the request in a chooser without a title.
    pub fn into_chooser(self) -> (r: Self)
        ensures
            configured(self.state(), Step::Chooser { title: None }, r.state()),
    {
        self.into_chooser_with_title(None)
    }

    /// Wraps the request in a chooser: the host makes a new request with this
    /// one as its target, and the builder owns the new one from then on.
    pub fn into_chooser_with_title(self, title: Option<&str>) -> (r: Self)
        ensures
            configured(self.state(), Step::Chooser { title: title_text(title) }, r.state()),
    {
        let mut intent = match self.inner {
            Ok(intent) => intent,
            Err(error) => return IntentBuilder { inner: Err(error) },
        };
        let title_value = match title {
            Some(title) => match intent.marshal(title) {
                Ok(text) => text,
                Err(error) => return IntentBuilder { inner: Err(error) },
            },
            None => null_string(),
        };
        let Intent { env, object, steps } = intent;
        let kind = FailureKind::ConstructionFailure;
        let class = match settle(find_class(env, Class::Intent.path()), kind) {
            Ok(class) => class,
            Err(error) => return IntentBuilder { inner: Err(error) },
        };
        let factory = Method::CreateChooser;
        let made = call_static_method(
            env,
            &class,
            factory.name(),
            factory.signature(),
            &[&object, &title_value],
        );
        let made = match settle(made, kind) {
            Ok(value) => settle(into_object(value), kind),
            Err(error) => Err(error),
        };
        let record = Ghost(steps@.push(Step::Chooser { title: title_text(title) }));
        Self::adopt(env, made, record)
    }

    /// Declares the type of the request's content.
    pub fn with_type(self, mime_type: &str) -> (r: Self)
        ensures
            configured(self.state(), Step::SetType { mime_type: mime_type@ }, r.state()),
    {
        let mut intent = match self.inner {
            Ok(intent) => intent,
            Err(error) => return IntentBuilder { inner: Err(error) },
        };
        let text = match intent.marshal(mime_type) {
            Ok(text) => text,
            Err(error) => return IntentBuilder { inner: Err(error) },
        };
        let step = Ghost(Step::SetType { mime_type: mime_type@ });
        IntentBuilder { inner: intent.configure(Method::SetType, &[&text], step) }
    }

    /// Hands the request to the host, through the activity or context that
    /// starts it. A builder that has failed reports its failure and asks
    /// nothing of the host.
    pub fn start_activity(self, activity: &JObject<'_>) -> (r: Result<(), IntentError>)
        ensures
            dispatched(self.state(), r),
    {
        let intent = match self.inner {
            Ok(intent) => intent,
            Err(error) => return Err(error),
        };
        let Intent { env, object, steps: _ } = intent;
        let start = Method::StartActivity;
        let returned = call_method(env, activity, start.name(), start.signature(), &[&object]);
        match settle(returned, FailureKind::ConstructionFailure) {
            Ok(_) => Ok(()),
            Err(error) => Err(error),
        }
    }
}

/// The text of an optional title.
pub open spec fn title_text(title: Option<&str>) -> Option<Seq<char>> {
    match title {
        Some(text) => Some(text@),
        None => None,
    }
}

} // verus!
