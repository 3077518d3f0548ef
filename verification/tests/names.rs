use android_intent::names::action_field_type;
use android_intent::{Action, Class, Constructor, Extra, Method};

#[test]
fn action_names_match_the_platform() {
    assert_eq!(Action::View.name(), "ACTION_VIEW");
    assert_eq!(Action::Send.name(), "ACTION_SEND");
    assert_eq!(Action::Edit.name(), "ACTION_EDIT");
}

#[test]
fn text_extra_key_matches_the_platform() {
    assert_eq!(Extra::Text.key(), "android.intent.extra.TEXT");
}

#[test]
fn class_paths_match_the_platform() {
    assert_eq!(Class::Intent.path(), "android/content/Intent");
    assert_eq!(Class::Uri.path(), "android/net/Uri");
    assert_eq!(action_field_type(), "Ljava/lang/String;");
}

#[test]
fn constructor_signatures_match_the_platform() {
    assert_eq!(Constructor::FromAction.signature(), "(Ljava/lang/String;)V");
    assert_eq!(
        Constructor::FromActionAndUri.signature(),
        "(Ljava/lang/String;Landroid/net/Uri;)V"
    );
}

#[test]
fn method_names_match_the_platform() {
    assert_eq!(Method::SetClassName.name(), "setClassName");
    assert_eq!(Method::PutExtra.name(), "putExtra");
    assert_eq!(Method::SetType.name(), "setType");
    assert_eq!(Method::CreateChooser.name(), "createChooser");
    assert_eq!(Method::StartActivity.name(), "startActivity");
    assert_eq!(Method::GetAction.name(), "getAction");
    assert_eq!(Method::GetDataString.name(), "getDataString");
    assert_eq!(Method::GetStringExtra.name(), "getStringExtra");
    assert_eq!(Method::ParseUri.name(), "parse");
}

#[test]
fn method_signatures_match_the_platform() {
    let two_strings = "(Ljava/lang/String;Ljava/lang/String;)Landroid/content/Intent;";
    assert_eq!(Method::SetClassName.signature(), two_strings);
    assert_eq!(Method::PutExtra.signature(), two_strings);
    assert_eq!(
        Method::SetType.signature(),
        "(Ljava/lang/String;)Landroid/content/Intent;"
    );
    assert_eq!(
        Method::CreateChooser.signature(),
        "(Landroid/content/Intent;Ljava/lang/CharSequence;)Landroid/content/Intent;"
    );
    assert_eq!(Method::StartActivity.signature(), "(Landroid/content/Intent;)V");
    assert_eq!(Method::GetAction.signature(), "()Ljava/lang/String;");
    assert_eq!(Method::GetDataString.signature(), "()Ljava/lang/String;");
    assert_eq!(
        Method::GetStringExtra.signature(),
        "(Ljava/lang/String;)Ljava/lang/String;"
    );
    assert_eq!(
        Method::ParseUri.signature(),
        "(Ljava/lang/String;)Landroid/net/Uri;"
    );
}

#[test]
fn every_signature_has_one_parameter_list() {
    let methods = [
        Method::SetClassName,
        Method::PutExtra,
        Method::SetType,
        Method::CreateChooser,
        Method::StartActivity,
        Method::GetAction,
        Method::GetDataString,
        Method::GetStringExtra,
        Method::ParseUri,
    ];
    for method in methods {
        let signature = method.signature();
        assert!(signature.starts_with('('));
        assert_eq!(signature.matches('(').count(), 1);
    }
    for constructor in [Constructor::FromAction, Constructor::FromActionAndUri] {
        let signature = constructor.signature();
        assert!(signature.starts_with('('));
        assert!(signature.ends_with(")V"));
        assert_eq!(signature.matches('(').count(), 1);
    }
}
