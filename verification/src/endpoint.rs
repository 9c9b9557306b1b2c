//! Conversation endpoints: the source/destination address-and-port tuple of
//! one TCP conversation. Two endpoints that are reverses of each other
//! denote the same bidirectional conversation.
use vstd::prelude::*;
use vstd::string::StringExecFns;

use crate::text::spec_dec;
use crate::text::u64_to_string;

verus! {

/// The four fields of an endpoint, as plain mathematical values.
#[verifier::ext_equal]
pub ghost struct EndpointModel {
    /// The source address text.
    pub src_addr: Seq<char>,
    /// The source port.
    pub src_port: u16,
    /// The destination address text.
    pub dst_addr: Seq<char>,
    /// The destination port.
    pub dst_port: u16,
}

/// One direction of a TCP conversation: source address and port, then
/// destination address and port.
#[derive(Debug, Clone)]
pub struct ServerEndpoint {
    pub src_addr: String,
    pub src_port: u16,
    pub dst_addr: String,
    pub dst_port: u16,
}

impl ServerEndpoint {
    /// The endpoint as plain mathematical values.
    pub open spec fn model(&self) -> EndpointModel {
        EndpointModel {
            src_addr: self.src_addr@,
            src_port: self.src_port,
            dst_addr: self.dst_addr@,
            dst_port: self.dst_port,
        }
    }

    /// The endpoint rendered as text: source address and port, an arrow,
    /// then destination address and port.
    pub open spec fn spec_to_string(&self) -> Seq<char> {
        self.src_addr@ + seq![':'] + spec_dec(self.src_port as int) + seq![' ', '-', '>', ' ']
            + self.dst_addr@ + seq![':'] + spec_dec(self.dst_port as int)
    }

    /// Render the endpoint as text: source address and port, an arrow,
    /// then destination address and port.
    pub fn to_string(&self) -> (s: String)
        ensures
            s@ == self.spec_to_string(),
    {
        let s = self.src_addr.clone().concat(":").concat(
            u64_to_string(self.src_port as u64).as_str(),
        ).concat(" -> ").concat(self.dst_addr.as_str()).concat(":").concat(
            u64_to_string(self.dst_port as u64).as_str(),
        );
        proof {
            reveal_strlit(":");
            reveal_strlit(" -> ");
            assert(s@ =~= self.spec_to_string());
        }
        s
    }

    /// A copy of the endpoint with the same four fields.
    pub fn clone_endpoint(&self) -> (r: ServerEndpoint)
        ensures
            r.model() =~= self.model(),
    {
        ServerEndpoint {
            src_addr: self.src_addr.clone(),
            src_port: self.src_port,
            dst_addr: self.dst_addr.clone(),
            dst_port: self.dst_port,
        }
    }

    /// Whether two endpoints are field-for-field equal (same direction).
    pub open spec fn spec_eq(&self, other: &ServerEndpoint) -> bool {
        &&& self.src_addr@ == other.src_addr@
        &&& self.src_port == other.src_port
        &&& self.dst_addr@ == other.dst_addr@
        &&& self.dst_port == other.dst_port
    }

    /// The same conversation seen from the other direction.
    pub open spec fn spec_reverse(&self) -> ServerEndpoint {
        ServerEndpoint {
            src_addr: self.dst_addr,
            src_port: self.dst_port,
            dst_addr: self.src_addr,
            dst_port: self.src_port,
        }
    }

    /// Whether two endpoints denote the same bidirectional conversation:
    /// equal in the same direction, or each the reverse of the other.
    pub open spec fn spec_same_conversation(&self, other: &ServerEndpoint) -> bool {
        self.spec_eq(other) || self.spec_eq(&other.spec_reverse())
    }

    /// Build an endpoint from its four fields.
    pub fn new(src_addr: String, src_port: u16, dst_addr: String, dst_port: u16) -> (r:
        ServerEndpoint)
        ensures
            r.src_addr@ == src_addr@,
            r.src_port == src_port,
            r.dst_addr@ == dst_addr@,
            r.dst_port == dst_port,
    {
        ServerEndpoint { src_addr, src_port, dst_addr, dst_port }
    }

    /// The same conversation seen from the other direction.
    pub fn reverse(&self) -> (r: ServerEndpoint)
        ensures
            r.spec_eq(&self.spec_reverse()),
    {
        ServerEndpoint::new(
            self.dst_addr.clone(),
            self.dst_port,
            self.src_addr.clone(),
            self.src_port,
        )
    }

    /// Whether this endpoint and `other` denote the same bidirectional
    /// conversation, matching the tuple in either direction.
    pub fn same_conversation(&self, other: &ServerEndpoint) -> (r: bool)
        ensures
            r == self.spec_same_conversation(other),
    {
        let forward = self.src_addr == other.src_addr && self.src_port == other.src_port
            && self.dst_addr == other.dst_addr && self.dst_port == other.dst_port;
        let backward = self.src_addr == other.dst_addr && self.src_port == other.dst_port
            && self.dst_addr == other.src_addr && self.dst_port == other.src_port;
        forward || backward
    }
}

impl PartialEq for ServerEndpoint {
    fn eq(&self, other: &ServerEndpoint) -> (r: bool) {
        self.src_addr == other.src_addr && self.src_port == other.src_port && self.dst_addr
            == other.dst_addr && self.dst_port == other.dst_port
    }
}

impl vstd::std_specs::cmp::PartialEqSpecImpl for ServerEndpoint {
    open spec fn obeys_eq_spec() -> bool {
        true
    }

    open spec fn eq_spec(&self, other: &ServerEndpoint) -> bool {
        self.spec_eq(other)
    }
}

} // verus!
