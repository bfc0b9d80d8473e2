//! The protocol methods that the gateway answers.

use crate::text::joined;
use vstd::prelude::*;

verus! {

/// A protocol method with a handler.
#[derive(Debug, Clone, Copy, PartialEq, Eq, Structural)]
pub enum ProtocolMethod {
    Initialize,
    ToolsCall,
    ToolsList,
    NotificationsInitialized,
}

/// The method of a given name, if that name has a handler.
pub open spec fn method_named(name: Seq<char>) -> Option<ProtocolMethod> {
    if name == "initialize"@ {
        Some(ProtocolMethod::Initialize)
    } else if name == "tools/call"@ {
        Some(ProtocolMethod::ToolsCall)
    } else if name == "tools/list"@ {
        Some(ProtocolMethod::ToolsList)
    } else if name == "notifications/initialized"@ {
        Some(ProtocolMethod::NotificationsInitialized)
    } else {
        None
    }
}

impl ProtocolMethod {
    /// The name of the method on the wire.
    pub open spec fn name(self) -> Seq<char> {
        match self {
            ProtocolMethod::Initialize => "initialize"@,
            ProtocolMethod::ToolsCall => "tools/call"@,
            ProtocolMethod::ToolsList => "tools/list"@,
            ProtocolMethod::NotificationsInitialized => "notifications/initialized"@,
        }
    }

    pub fn as_str(&self) -> (r: &'static str)
        ensures
            r@ == self.name(),
    {
        match self {
            ProtocolMethod::Initialize => "initialize",
            ProtocolMethod::ToolsCall => "tools/call",
            ProtocolMethod::ToolsList => "tools/list",
            ProtocolMethod::NotificationsInitialized => "notifications/initialized",
        }
    }

    /// The name of the method, as an owned text.
    pub fn to_string(&self) -> (r: String)
        ensures
            r@ == self.name(),
    {
        self.as_str().to_string()
    }

    /// The method named `s`; for any other text, the message that says so.
    pub fn from_str(s: &str) -> (r: Result<ProtocolMethod, String>)
        ensures
            match r {
                Ok(m) => method_named(s@) == Some(m),
                Err(e) => method_named(s@) is None && e@ == "Invalid ProtocolMethod: "@ + s@,
            },
    {
        if *s == *"initialize" {
            Ok(ProtocolMethod::Initialize)
        } else if *s == *"tools/call" {
            Ok(ProtocolMethod::ToolsCall)
        } else if *s == *"tools/list" {
            Ok(ProtocolMethod::ToolsList)
        } else if *s == *"notifications/initialized" {
            Ok(ProtocolMethod::NotificationsInitialized)
        } else {
            Err(joined("Invalid ProtocolMethod: ", s))
        }
    }
}

/// Reading a method's name gives the method back.
pub proof fn lemma_method_name_round_trip(m: ProtocolMethod)
    ensures
        method_named(m.name()) == Some(m),
{
    reveal_strlit("initialize");
    reveal_strlit("tools/call");
    reveal_strlit("tools/list");
    reveal_strlit("notifications/initialized");
    match m {
        ProtocolMethod::Initialize => {},
        ProtocolMethod::ToolsCall => {
            assert("tools/call"@[0] != "initialize"@[0]);
        },
        ProtocolMethod::ToolsList => {
            assert("tools/list"@[0] != "initialize"@[0]);
            assert("tools/list"@[6] != "tools/call"@[6]);
        },
        ProtocolMethod::NotificationsInitialized => {},
    }
}

} // verus!
