use vstd::prelude::*;
use crate::session::NodeSession;

verus! {

/// How to reach one remote host, and the group it belongs to.
pub struct Node {
    pub public_address: String,
    pub tag: String,
    pub keyfile: Option<String>,
}

/// The nodes of `nodes` that take part under the filter `tag`: all of them when
/// there is no filter, else those whose tag equals it, in their order.
pub open spec fn tag_filtered(nodes: Seq<Node>, tag: Option<Seq<char>>) -> Seq<Node> {
    match tag {
        None => nodes,
        Some(t) => nodes.filter(|n: Node| n.tag@ == t),
    }
}

/// The text of an optional string.
pub open spec fn option_view(s: Option<String>) -> Option<Seq<char>> {
    match s {
        Some(t) => Some(t@),
        None => None,
    }
}

/// How a host's identity key is checked when a connection is set up.
pub enum HostKeyPolicy {
    /// Unknown hosts are accepted without asking, as unattended runs need.
    AcceptAll,
    /// A host must be listed in the known-hosts file.
    KnownHostsFile,
}

/// Everything needed to set up a connection to one node.
pub struct ConnectRequest {
    pub destination: String,
    pub keyfile: Option<String>,
    pub host_keys: HostKeyPolicy,
}

impl Node {
    /// The connection to set up for this node: its address, its private key if it
    /// names one, and the host-key policy asked for.
    pub fn connect(&self, host_keys: HostKeyPolicy) -> (r: ConnectRequest)
        ensures
            r.destination@ == self.public_address@,
            option_view(r.keyfile) == option_view(self.keyfile),
            r.host_keys == host_keys,
    {
        let keyfile = match &self.keyfile {
            Some(k) => Some(k.clone()),
            None => None,
        };
        ConnectRequest { destination: self.public_address.clone(), keyfile, host_keys }
    }

    /// Turns this node and the outcome of connecting to it into a session; a
    /// failed connection is handed back as it came.
    pub fn get_node_session<C, E>(self, connection: Result<C, E>) -> (r: Result<NodeSession<C>, E>)
        ensures
            match connection {
                Ok(c) => r == Ok::<NodeSession<C>, E>(NodeSession { node: self, session: c }),
                Err(e) => r == Err::<NodeSession<C>, E>(e),
            },
    {
        match connection {
            Ok(c) => Ok(NodeSession { node: self, session: c }),
            Err(e) => Err(e),
        }
    }

    /// A copy of this node, field for field.
    pub fn duplicate(&self) -> (r: Node)
        ensures
            r == *self,
    {
        let keyfile = match &self.keyfile {
            Some(k) => Some(k.clone()),
            None => None,
        };
        Node { public_address: self.public_address.clone(), tag: self.tag.clone(), keyfile }
    }
}

/// Keeps the nodes whose tag equals `tag` exactly, in their order; with no
/// filter every node is kept.
pub fn filter_nodes(nodes: &Vec<Node>, tag: &Option<String>) -> (r: Vec<Node>)
    ensures
        r@ == tag_filtered(nodes@, option_view(*tag)),
{
    let mut r: Vec<Node> = Vec::new();
    let mut i: usize = 0;
    while i < nodes.len()
        invariant
            i <= nodes@.len(),
            r@ == tag_filtered(nodes@.subrange(0, i as int), option_view(*tag)),
        decreases nodes@.len() - i,
    {
        let n = &nodes[i];
        let keep = match tag {
            Some(t) => n.tag == *t,
            None => true,
        };
        proof {
            let s = nodes@.subrange(0, i as int + 1);
            assert(s.drop_last() =~= nodes@.subrange(0, i as int));
            reveal_with_fuel(Seq::filter, 1);
        }
        if keep {
            r.push(n.duplicate());
        }
        i = i + 1;
    }
    assert(nodes@.subrange(0, nodes@.len() as int) =~= nodes@);
    r
}

} // verus!
