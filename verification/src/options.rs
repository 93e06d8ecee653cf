//! The options that the Python and JavaScript bindings accept when a policy is
//! created: the principal's name and the default decision, given by name.

use vstd::prelude::*;

use crate::engine::{DefaultDecision, PolicyConfig};

verus! {

/// The message of the error for an unknown default decision.
pub open spec fn invalid_default_text(value: Seq<char>) -> Seq<char> {
    "invalid default decision '"@ + value + "': must be 'deny' or 'allow'"@
}

/// Reads the default decision from its name: `deny` (also when it is not given)
/// or `allow`. Any other name is an error whose message quotes it.
pub fn parse_default_decision(value: Option<&str>) -> (r: Result<DefaultDecision, String>)
    ensures
        value is None ==> r == Ok::<DefaultDecision, String>(DefaultDecision::Deny),
        value matches Some(v) ==> {
            &&& v@ == "deny"@ ==> r == Ok::<DefaultDecision, String>(DefaultDecision::Deny)
            &&& v@ == "allow"@ ==> r == Ok::<DefaultDecision, String>(DefaultDecision::Allow)
            &&& v@ != "deny"@ && v@ != "allow"@ ==> (r matches Err(m) && m@ == invalid_default_text(v@))
        },
{
    match value {
        None => Ok(DefaultDecision::Deny),
        Some(v) => {
            proof {
                reveal_strlit("deny");
                reveal_strlit("allow");
            }
            let given = v.to_owned();
            assert("allow"@.len() != "deny"@.len());
            if given == "deny".to_owned() {
                Ok(DefaultDecision::Deny)
            } else if given == "allow".to_owned() {
                Ok(DefaultDecision::Allow)
            } else {
                let mut message = "invalid default decision '".to_owned();
                message.append(v);
                message.append("': must be 'deny' or 'allow'");
                Err(message)
            }
        },
    }
}

impl PolicyConfig {
    /// Builds a configuration from the bindings' options: the principal defaults to
    /// `anonymous`, the default decision to `deny`.
    pub fn from_options(principal: Option<String>, default: Option<&str>) -> (r: Result<
        PolicyConfig,
        String,
    >)
        ensures
            match parse_default_decision_spec(default) {
                Ok(d) => r matches Ok(c) && c.default_decision == d && c.principal@ == match principal {
                    Some(p) => p@,
                    None => "anonymous"@,
                },
                Err(m) => r matches Err(e) && e@ == m,
            },
            match default {
                None => r matches Ok(c) && c.default_decision == DefaultDecision::Deny,
                Some(v) => {
                    &&& v@ == "deny"@ ==> (r matches Ok(c) && c.default_decision == DefaultDecision::Deny)
                    &&& v@ == "allow"@ ==> (r matches Ok(c) && c.default_decision
                        == DefaultDecision::Allow)
                    &&& v@ != "deny"@ && v@ != "allow"@ ==> (r matches Err(e) && e@
                        == invalid_default_text(v@))
                },
            },
    {
        let default_decision = match parse_default_decision(default) {
            Ok(d) => d,
            Err(message) => return Err(message),
        };
        let principal = match principal {
            Some(p) => p,
            None => "anonymous".to_owned(),
        };
        Ok(PolicyConfig { principal, default_decision })
    }
}

/// The result of reading a default decision from its name, with the message as a
/// sequence of characters.
pub open spec fn parse_default_decision_spec(value: Option<&str>) -> Result<DefaultDecision, Seq<char>> {
    match value {
        None => Ok(DefaultDecision::Deny),
        Some(v) => if v@ == "deny"@ {
            Ok(DefaultDecision::Deny)
        } else if v@ == "allow"@ {
            Ok(DefaultDecision::Allow)
        } else {
            Err(invalid_default_text(v@))
        },
    }
}

/// The default decision is read from its name alone: `deny`, or no name, gives
/// deny-by-default, `allow` gives allow-by-default, and any other name is refused
/// with a message that quotes it.
pub proof fn lemma_default_decision_names(v: &str)
    ensures
        parse_default_decision_spec(None) == Ok::<DefaultDecision, Seq<char>>(DefaultDecision::Deny),
        v@ == "deny"@ ==> parse_default_decision_spec(Some(v)) == Ok::<DefaultDecision, Seq<char>>(
            DefaultDecision::Deny,
        ),
        v@ == "allow"@ ==> parse_default_decision_spec(Some(v)) == Ok::<DefaultDecision, Seq<char>>(
            DefaultDecision::Allow,
        ),
        v@ != "deny"@ && v@ != "allow"@ ==> parse_default_decision_spec(Some(v)) == Err::<
            DefaultDecision,
            Seq<char>,
        >(invalid_default_text(v@)),
{
    reveal_strlit("deny");
    reveal_strlit("allow");
    assert("allow"@.len() != "deny"@.len());
}

} // verus!
