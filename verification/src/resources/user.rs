//! User records.

use vstd::prelude::*;
use vstd::std_specs::convert::{FromSpecImpl, TryFromSpecImpl};
use crate::text::text_eq;
use crate::UnknownEnumValue;

pub mod mock;

verus! {

/// How a user authenticates
#[derive(Clone, Copy, Debug, PartialEq, Eq, Structural, Hash, PartialOrd, Ord)]
pub enum AuthMethod {
    /// OAUTH_GOOGLE
    OauthGoogle,
    /// OAUTH_FACEBOOK
    OauthFacebook,
    /// OAUTH_AZURE_AD
    OauthAzureAd,
    /// LOCAL
    Local,
}

impl AuthMethod {
    /// The wire value of the variant.
    pub open spec fn spec_value(self) -> i32 {
        match self {
            AuthMethod::OauthGoogle => 0,
            AuthMethod::OauthFacebook => 1,
            AuthMethod::OauthAzureAd => 2,
            AuthMethod::Local => 3,
        }
    }

    /// The variant with the given wire value, if any.
    pub open spec fn spec_from_value(value: i32) -> Option<AuthMethod> {
        if value == 0 {
            Some(AuthMethod::OauthGoogle)
        } else if value == 1 {
            Some(AuthMethod::OauthFacebook)
        } else if value == 2 {
            Some(AuthMethod::OauthAzureAd)
        } else if value == 3 {
            Some(AuthMethod::Local)
        } else {
            None
        }
    }

    /// The field name used in the ProtoBuf definition.
    pub open spec fn spec_str_name(self) -> Seq<char> {
        match self {
            AuthMethod::OauthGoogle => "OAUTH_GOOGLE"@,
            AuthMethod::OauthFacebook => "OAUTH_FACEBOOK"@,
            AuthMethod::OauthAzureAd => "OAUTH_AZURE_AD"@,
            AuthMethod::Local => "LOCAL"@,
        }
    }

    /// The variant whose ProtoBuf field name is `name`, if any.
    pub open spec fn spec_from_str_name(name: Seq<char>) -> Option<AuthMethod> {
        if name == "OAUTH_GOOGLE"@ {
            Some(AuthMethod::OauthGoogle)
        } else if name == "OAUTH_FACEBOOK"@ {
            Some(AuthMethod::OauthFacebook)
        } else if name == "OAUTH_AZURE_AD"@ {
            Some(AuthMethod::OauthAzureAd)
        } else if name == "LOCAL"@ {
            Some(AuthMethod::Local)
        } else {
            None
        }
    }

    /// The wire value of the variant.
    pub fn value(&self) -> (r: i32)
        ensures
            r == self.spec_value(),
    {
        match self {
            AuthMethod::OauthGoogle => 0,
            AuthMethod::OauthFacebook => 1,
            AuthMethod::OauthAzureAd => 2,
            AuthMethod::Local => 3,
        }
    }

    /// The variant with the given wire value, if any.
    pub fn from_value(value: i32) -> (r: Option<AuthMethod>)
        ensures
            r == AuthMethod::spec_from_value(value),
    {
        if value == 0 {
            Some(AuthMethod::OauthGoogle)
        } else if value == 1 {
            Some(AuthMethod::OauthFacebook)
        } else if value == 2 {
            Some(AuthMethod::OauthAzureAd)
        } else if value == 3 {
            Some(AuthMethod::Local)
        } else {
            None
        }
    }

    /// String value of the enum field names used in the ProtoBuf definition.
    pub fn as_str_name(&self) -> (r: &'static str)
        ensures
            r@ == self.spec_str_name(),
    {
        match self {
            AuthMethod::OauthGoogle => "OAUTH_GOOGLE",
            AuthMethod::OauthFacebook => "OAUTH_FACEBOOK",
            AuthMethod::OauthAzureAd => "OAUTH_AZURE_AD",
            AuthMethod::Local => "LOCAL",
        }
    }

    /// Creates an enum from field names used in the ProtoBuf definition.
    pub fn from_str_name(value: &str) -> (r: Option<AuthMethod>)
        ensures
            r == AuthMethod::spec_from_str_name(value@),
    {
        if text_eq(value, "OAUTH_GOOGLE") {
            Some(AuthMethod::OauthGoogle)
        } else if text_eq(value, "OAUTH_FACEBOOK") {
            Some(AuthMethod::OauthFacebook)
        } else if text_eq(value, "OAUTH_AZURE_AD") {
            Some(AuthMethod::OauthAzureAd)
        } else if text_eq(value, "LOCAL") {
            Some(AuthMethod::Local)
        } else {
            None
        }
    }
}

impl TryFrom<i32> for AuthMethod {
    type Error = UnknownEnumValue;

    fn try_from(value: i32) -> (r: Result<AuthMethod, UnknownEnumValue>) {
        match AuthMethod::from_value(value) {
            Some(v) => Ok(v),
            None => Err(UnknownEnumValue(value)),
        }
    }
}

impl TryFromSpecImpl<i32> for AuthMethod {
    open spec fn obeys_try_from_spec() -> bool {
        true
    }

    open spec fn try_from_spec(value: i32) -> Result<AuthMethod, UnknownEnumValue> {
        match AuthMethod::spec_from_value(value) {
            Some(v) => Ok(v),
            None => Err(UnknownEnumValue(value)),
        }
    }
}

impl From<AuthMethod> for i32 {
    fn from(value: AuthMethod) -> (r: i32) {
        value.value()
    }
}

impl FromSpecImpl<AuthMethod> for i32 {
    open spec fn obeys_from_spec() -> bool {
        true
    }

    open spec fn from_spec(value: AuthMethod) -> i32 {
        value.spec_value()
    }
}

/// Every AuthMethod is found again from its ProtoBuf field name, and from its
/// wire value; and a wire value that names a variant is that variant's value.
pub proof fn lemma_auth_method_names_and_values(op: AuthMethod, value: i32)
    ensures
        AuthMethod::spec_from_str_name(op.spec_str_name()) == Some(op),
        AuthMethod::spec_from_value(op.spec_value()) == Some(op),
        AuthMethod::spec_from_value(value) == Some(op) ==> op.spec_value() == value,
{
    match op {
        AuthMethod::OauthGoogle => {
            assert(AuthMethod::spec_from_str_name("OAUTH_GOOGLE"@) == Some(AuthMethod::OauthGoogle));
        },
        AuthMethod::OauthFacebook => {
            assert("OAUTH_FACEBOOK"@ != "OAUTH_GOOGLE"@) by {
                reveal_strlit("OAUTH_FACEBOOK");
                reveal_strlit("OAUTH_GOOGLE");
                assert("OAUTH_FACEBOOK"@.len() != "OAUTH_GOOGLE"@.len());
            }
            assert(AuthMethod::spec_from_str_name("OAUTH_FACEBOOK"@) == Some(AuthMethod::OauthFacebook));
        },
        AuthMethod::OauthAzureAd => {
            assert("OAUTH_AZURE_AD"@ != "OAUTH_GOOGLE"@) by {
                reveal_strlit("OAUTH_AZURE_AD");
                reveal_strlit("OAUTH_GOOGLE");
                assert("OAUTH_AZURE_AD"@.len() != "OAUTH_GOOGLE"@.len());
            }
            assert("OAUTH_AZURE_AD"@ != "OAUTH_FACEBOOK"@) by {
                reveal_strlit("OAUTH_AZURE_AD");
                reveal_strlit("OAUTH_FACEBOOK");
                assert("OAUTH_AZURE_AD"@[6] != "OAUTH_FACEBOOK"@[6]);
            }
            assert(AuthMethod::spec_from_str_name("OAUTH_AZURE_AD"@) == Some(AuthMethod::OauthAzureAd));
        },
        AuthMethod::Local => {
            assert("LOCAL"@ != "OAUTH_GOOGLE"@) by {
                reveal_strlit("LOCAL");
                reveal_strlit("OAUTH_GOOGLE");
                assert("LOCAL"@.len() != "OAUTH_GOOGLE"@.len());
            }
            assert("LOCAL"@ != "OAUTH_FACEBOOK"@) by {
                reveal_strlit("LOCAL");
                reveal_strlit("OAUTH_FACEBOOK");
                assert("LOCAL"@.len() != "OAUTH_FACEBOOK"@.len());
            }
            assert("LOCAL"@ != "OAUTH_AZURE_AD"@) by {
                reveal_strlit("LOCAL");
                reveal_strlit("OAUTH_AZURE_AD");
                assert("LOCAL"@.len() != "OAUTH_AZURE_AD"@.len());
            }
            assert(AuthMethod::spec_from_str_name("LOCAL"@) == Some(AuthMethod::Local));
        },
    }
}
/// A user.
#[derive(Clone, Debug, PartialEq, Eq, Default)]
pub struct Data {
    /// name shown for the user
    pub display_name: String,
    /// wire value of an [`AuthMethod`]
    pub auth_method: i32,
    /// e-mail address
    pub email: String,
}

} // verus!
