//! The names by which the host platform resolves what this library asks of it.
//!
//! The host looks up classes, fields and methods by text, so every name and
//! every type signature here has to match the platform letter for letter.
use vstd::prelude::*;

verus! {

/// A type signature has a single parameter list when no `(` stands after its
/// first character. The foreign interface only accepts such signatures for a
/// call.
pub open spec fn single_parameter_list(signature: Seq<char>) -> bool {
    forall|i: int| 1 <= i < signature.len() ==> signature[i] != '('
}

/// The actions a request can be constructed with.
#[derive(Clone, Copy, Debug, PartialEq, Eq, Structural)]
pub enum Action {
    View,
    Send,
    Edit,
}

impl Action {
    /// The name of the constant on the host's request class.
    pub open spec fn name_text(self) -> Seq<char> {
        match self {
            Action::View => "ACTION_VIEW"@,
            Action::Send => "ACTION_SEND"@,
            Action::Edit => "ACTION_EDIT"@,
        }
    }

    pub fn name(&self) -> (r: &'static str)
        ensures
            r@ == self.name_text(),
    {
        match self {
            Action::View => "ACTION_VIEW",
            Action::Send => "ACTION_SEND",
            Action::Edit => "ACTION_EDIT",
        }
    }
}

/// The well-known keys under which extras are attached.
#[derive(Clone, Copy, Debug, PartialEq, Eq, Structural)]
pub enum Extra {
    Text,
}

impl Extra {
    pub open spec fn key_text(self) -> Seq<char> {
        match self {
            Extra::Text => "android.intent.extra.TEXT"@,
        }
    }

    pub fn key(&self) -> (r: &'static str)
        ensures
            r@ == self.key_text(),
    {
        match self {
            Extra::Text => "android.intent.extra.TEXT",
        }
    }
}

/// The host classes that are looked up by name.
#[derive(Clone, Copy, Debug, PartialEq, Eq, Structural)]
pub enum Class {
    Intent,
    Uri,
}

impl Class {
    pub open spec fn path_text(self) -> Seq<char> {
        match self {
            Class::Intent => "android/content/Intent"@,
            Class::Uri => "android/net/Uri"@,
        }
    }

    /// The qualified name of the class, with `/` between its parts.
    pub fn path(&self) -> (r: &'static str)
        ensures
            r@ == self.path_text(),
    {
        match self {
            Class::Intent => "android/content/Intent",
            Class::Uri => "android/net/Uri",
        }
    }
}

/// The type of the constants that name an action.
pub open spec fn action_field_type_text() -> Seq<char> {
    "Ljava/lang/String;"@
}

pub fn action_field_type() -> (r: &'static str)
    ensures
        r@ == action_field_type_text(),
{
    "Ljava/lang/String;"
}

/// The two ways in which the host constructs a request.
#[derive(Clone, Copy, Debug, PartialEq, Eq, Structural)]
pub enum Constructor {
    FromAction,
    FromActionAndUri,
}

impl Constructor {
    pub open spec fn signature_text(self) -> Seq<char> {
        match self {
            Constructor::FromAction => "(Ljava/lang/String;)V"@,
            Constructor::FromActionAndUri => "(Ljava/lang/String;Landroid/net/Uri;)V"@,
        }
    }

    pub fn signature(&self) -> (r: &'static str)
        ensures
            r@ == self.signature_text(),
            single_parameter_list(r@),
    {
        match self {
            Constructor::FromAction => {
                proof {
                    reveal_strlit("(Ljava/lang/String;)V");
                }
                "(Ljava/lang/String;)V"
            },
            Constructor::FromActionAndUri => {
                proof {
                    reveal_strlit("(Ljava/lang/String;Landroid/net/Uri;)V");
                }
                "(Ljava/lang/String;Landroid/net/Uri;)V"
            },
        }
    }
}

/// The host methods that this library invokes.
#[derive(Clone, Copy, Debug, PartialEq, Eq, Structural)]
pub enum Method {
    SetClassName,
    PutExtra,
    SetType,
    CreateChooser,
    StartActivity,
    GetAction,
    GetDataString,
    GetStringExtra,
    ParseUri,
}

impl Method {
    pub open spec fn name_text(self) -> Seq<char> {
        match self {
            Method::SetClassName => "setClassName"@,
            Method::PutExtra => "putExtra"@,
            Method::SetType => "setType"@,
            Method::CreateChooser => "createChooser"@,
            Method::StartActivity => "startActivity"@,
            Method::GetAction => "getAction"@,
            Method::GetDataString => "getDataString"@,
            Method::GetStringExtra => "getStringExtra"@,
            Method::ParseUri => "parse"@,
        }
    }

    pub open spec fn signature_text(self) -> Seq<char> {
        match self {
            Method::SetClassName => "(Ljava/lang/String;Ljava/lang/String;)Landroid/content/Intent;"@,
            Method::PutExtra => "(Ljava/lang/String;Ljava/lang/String;)Landroid/content/Intent;"@,
            Method::SetType => "(Ljava/lang/String;)Landroid/content/Intent;"@,
            Method::CreateChooser => "(Landroid/content/Intent;Ljava/lang/CharSequence;)Landroid/content/Intent;"@,
            Method::StartActivity => "(Landroid/content/Intent;)V"@,
            Method::GetAction => "()Ljava/lang/String;"@,
            Method::GetDataString => "()Ljava/lang/String;"@,
            Method::GetStringExtra => "(Ljava/lang/String;)Ljava/lang/String;"@,
            Method::ParseUri => "(Ljava/lang/String;)Landroid/net/Uri;"@,
        }
    }

    pub fn name(&self) -> (r: &'static str)
        ensures
            r@ == self.name_text(),
    {
        match self {
            Method::SetClassName => "setClassName",
            Method::PutExtra => "putExtra",
            Method::SetType => "setType",
            Method::CreateChooser => "createChooser",
            Method::StartActivity => "startActivity",
            Method::GetAction => "getAction",
            Method::GetDataString => "getDataString",
            Method::GetStringExtra => "getStringExtra",
            Method::ParseUri => "parse",
        }
    }

    pub fn signature(&self) -> (r: &'static str)
        ensures
            r@ == self.signature_text(),
            single_parameter_list(r@),
    {
        match self {
            Method::SetClassName | Method::PutExtra => {
                proof {
                    reveal_strlit("(Ljava/lang/String;Ljava/lang/String;)Landroid/content/Intent;");
                }
                "(Ljava/lang/String;Ljava/lang/String;)Landroid/content/Intent;"
            },
            Method::SetType => {
                proof {
                    reveal_strlit("(Ljava/lang/String;)Landroid/content/Intent;");
                }
                "(Ljava/lang/String;)Landroid/content/Intent;"
            },
            Method::CreateChooser => {
                proof {
                    reveal_strlit("(Landroid/content/Intent;Ljava/lang/CharSequence;)Landroid/content/Intent;");
                }
                "(Landroid/content/Intent;Ljava/lang/CharSequence;)Landroid/content/Intent;"
            },
            Method::StartActivity => {
                proof {
                    reveal_strlit("(Landroid/content/Intent;)V");
                }
                "(Landroid/content/Intent;)V"
            },
            Method::GetAction | Method::GetDataString => {
                proof {
                    reveal_strlit("()Ljava/lang/String;");
                }
                "()Ljava/lang/String;"
            },
            Method::GetStringExtra => {
                proof {
                    reveal_strlit("(Ljava/lang/String;)Ljava/lang/String;");
                }
                "(Ljava/lang/String;)Ljava/lang/String;"
            },
            Method::ParseUri => {
                proof {
                    reveal_strlit("(Ljava/lang/String;)Landroid/net/Uri;");
                }
                "(Ljava/lang/String;)Landroid/net/Uri;"
            },
        }
    }
}

} // verus!
