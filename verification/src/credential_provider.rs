//! Provider authentication material and its redacted rendering.

use vstd::prelude::*;
use vstd::string::StringExecFns;
use crate::text::{decimal, push_decimal};

verus! {

/// Authentication material for the DNS provider.
///
/// `expires_after` is the expiry in whole seconds since the Unix epoch.
///
/// The type has no `Debug`: a structural print would show the secrets. Its
/// only rendering is [`AwsCredentials::to_text`].
#[derive(Clone)]
pub struct AwsCredentials {
    pub access_key_id: String,
    pub secret_access_key: String,
    pub session_token: Option<String>,
    pub expires_after: Option<u64>,
}

/// The only text under which credentials may appear in a log: the three secret
/// fields are masked, the expiry alone is shown.
pub open spec fn redacted(expires_after: Option<u64>) -> Seq<char> {
    "AwsCredentials { access_key_id: \"********\", secret_access_key: \"********\", session_token: \"********\", expires_after: "@
        + match expires_after {
        None => "None"@,
        Some(t) => "Some("@ + decimal(t as nat) + ")"@,
    } + " }"@
}

impl AwsCredentials {
    pub fn new(
        access_key_id: String,
        secret_access_key: String,
        session_token: Option<String>,
        expires_after: Option<u64>,
    ) -> (r: Self)
        ensures
            r.access_key_id == access_key_id,
            r.secret_access_key == secret_access_key,
            r.session_token == session_token,
            r.expires_after == expires_after,
    {
        AwsCredentials { access_key_id, secret_access_key, session_token, expires_after }
    }

    /// The redacted rendering, for logs and diagnostics.
    pub fn to_text(&self) -> (r: String)
        ensures
            r@ == redacted(self.expires_after),
    {
        let mut out = String::from_str(
            "AwsCredentials { access_key_id: \"********\", secret_access_key: \"********\", session_token: \"********\", expires_after: ",
        );
        match self.expires_after {
            None => {
                out.append("None");
            },
            Some(t) => {
                out.append("Some(");
                push_decimal(&mut out, t);
                out.append(")");
            },
        }
        out.append(" }");
        assert(out@ =~= redacted(self.expires_after));
        out
    }
}

/// Two credentials with the same expiry render alike, whatever their secrets:
/// the rendering does not depend on the key identifier, the secret or the
/// session token.
pub proof fn rendering_hides_secrets(x: AwsCredentials, y: AwsCredentials)
    requires
        x.expires_after == y.expires_after,
    ensures
        redacted(x.expires_after) == redacted(y.expires_after),
{
}

} // verus!
