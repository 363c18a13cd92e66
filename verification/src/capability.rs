//! Capability verification: reads a request from its wire form and puts it, with
//! the presented chain, before the authorizer.
//!
//! The chain's own format and the authorization rules belong to the capability
//! crate. Its two calls come in as functions: one reads a chain, one authorizes.

use vstd::prelude::*;

use crate::error::{is_json_fault, JsonInput, VaultError};
use crate::json::{
    error_text, json_error_text, pairs, pairs_error, parse_pairs, parse_strings, parsed_pairs,
    parsed_strings, strings_error, texts,
};
use crate::node_id::{node_id_of, node_ids_of, parse_node_id, NodeId, NodeIdFault};

verus! {

/// What a capability chain is asked to authorize, and by whose rules.
#[derive(Debug)]
pub struct AuthorizeRequest {
    /// The node that is asked.
    pub self_id: NodeId,
    /// The nodes it trusts as roots, besides itself.
    pub accepted_roots: Vec<NodeId>,
    /// Its tags.
    pub self_tags: Vec<String>,
    /// The time, in seconds of the Unix clock.
    pub now: u64,
    /// The node that asks.
    pub requester: NodeId,
    /// What it asks to do.
    pub action: String,
    /// The capabilities known to be revoked, by issuer and nonce.
    pub revoked: Vec<(NodeId, u64)>,
}

/// The content of an [`AuthorizeRequest`].
pub struct RequestView {
    pub self_id: Seq<u8>,
    pub accepted_roots: Seq<Seq<u8>>,
    pub self_tags: Seq<Seq<char>>,
    pub now: u64,
    pub requester: Seq<u8>,
    pub action: Seq<char>,
    pub revoked: Seq<(Seq<u8>, u64)>,
}

/// The bytes of some node ids.
pub open spec fn id_bytes(ids: Seq<NodeId>) -> Seq<Seq<u8>> {
    ids.map_values(|id: NodeId| id@)
}

/// The bytes of some node ids, each with its nonce.
pub open spec fn nonce_bytes(pairs: Seq<(NodeId, u64)>) -> Seq<(Seq<u8>, u64)> {
    pairs.map_values(|pair: (NodeId, u64)| (pair.0@, pair.1))
}

impl View for AuthorizeRequest {
    type V = RequestView;

    open spec fn view(&self) -> RequestView {
        RequestView {
            self_id: self.self_id@,
            accepted_roots: id_bytes(self.accepted_roots@),
            self_tags: texts(self.self_tags@),
            now: self.now,
            requester: self.requester@,
            action: self.action@,
            revoked: nonce_bytes(self.revoked@),
        }
    }
}

/// Whether two node ids are the same.
fn same_id(a: &NodeId, b: &NodeId) -> (same: bool)
    ensures
        same == (a@ == b@),
{
    let mut i: usize = 0;
    while i < 32
        invariant
            i <= 32,
            forall|j: int| 0 <= j < i ==> a@[j] == b@[j],
        decreases 32 - i,
    {
        if a[i] != b[i] {
            assert(a@[i as int] != b@[i as int]);
            return false;
        }
        i = i + 1;
    }
    assert(a@ == b@);
    true
}

impl AuthorizeRequest {
    /// Whether the capability that `issuer` issued under `nonce` is revoked.
    pub fn is_revoked(&self, issuer: &NodeId, nonce: u64) -> (revoked: bool)
        ensures
            revoked == self@.revoked.contains((issuer@, nonce)),
    {
        let mut i: usize = 0;
        while i < self.revoked.len()
            invariant
                i <= self.revoked@.len(),
                forall|j: int|
                    0 <= j < i ==> #[trigger] self@.revoked[j] != (issuer@, nonce),
            decreases self.revoked@.len() - i,
        {
            assert(self@.revoked[i as int] == (self.revoked@[i as int].0@, self.revoked@[i as int].1));
            if same_id(&self.revoked[i].0, issuer) && self.revoked[i].1 == nonce {
                return true;
            }
            i = i + 1;
        }
        false
    }
}

/// The revoked pairs with their issuers read, or the fault of the first issuer
/// that is no node id.
pub open spec fn revoked_of(pairs: Seq<(Seq<char>, u64)>) -> Result<
    Seq<(Seq<u8>, u64)>,
    NodeIdFault,
> {
    match node_ids_of(pairs.map_values(|pair: (Seq<char>, u64)| pair.0)) {
        Ok(ids) => Ok(Seq::new(pairs.len(), |i: int| (ids[i], pairs[i].1))),
        Err(fault) => Err(fault),
    }
}

/// Why a request cannot be read.
pub enum RequestFault {
    NodeId(NodeIdFault),
    Json { input: JsonInput, cause: Seq<char> },
}

/// Whether `result` reports `fault`.
pub open spec fn reports<T>(result: Result<T, VaultError>, fault: RequestFault) -> bool {
    match fault {
        RequestFault::NodeId(fault) => result == Err::<T, VaultError>(VaultError::NodeId(fault)),
        RequestFault::Json { input, cause } => is_json_fault(result, input, cause),
    }
}

/// The node id that a text writes, or why it writes none.
pub open spec fn id_from(hex: Seq<char>) -> Result<Seq<u8>, RequestFault> {
    match node_id_of(hex) {
        Ok(id) => Ok(id),
        Err(fault) => Err(RequestFault::NodeId(fault)),
    }
}

/// The root ids that a JSON text lists, or why it lists none.
pub open spec fn roots_from(text: Seq<char>) -> Result<Seq<Seq<u8>>, RequestFault> {
    match parsed_strings(text) {
        Some(hexes) => match node_ids_of(hexes) {
            Ok(ids) => Ok(ids),
            Err(fault) => Err(RequestFault::NodeId(fault)),
        },
        None => Err(
            RequestFault::Json {
                input: JsonInput::AcceptedRoots,
                cause: json_error_text(strings_error(text)),
            },
        ),
    }
}

/// The tags that a JSON text lists, or why it lists none.
pub open spec fn tags_from(text: Seq<char>) -> Result<Seq<Seq<char>>, RequestFault> {
    match parsed_strings(text) {
        Some(tags) => Ok(tags),
        None => Err(
            RequestFault::Json {
                input: JsonInput::SelfTags,
                cause: json_error_text(strings_error(text)),
            },
        ),
    }
}

/// The revoked capabilities that a JSON text lists, or why it lists none.
pub open spec fn revoked_from(text: Seq<char>) -> Result<Seq<(Seq<u8>, u64)>, RequestFault> {
    match parsed_pairs(text) {
        Some(pairs) => match revoked_of(pairs) {
            Ok(revoked) => Ok(revoked),
            Err(fault) => Err(RequestFault::NodeId(fault)),
        },
        None => Err(
            RequestFault::Json {
                input: JsonInput::Revoked,
                cause: json_error_text(pairs_error(text)),
            },
        ),
    }
}

/// What is read of a request before its chain: the node that is asked, the node
/// that asks, the accepted roots and the tags, or the first fault in this order.
pub open spec fn head_from(
    self_id_hex: Seq<char>,
    requester_hex: Seq<char>,
    accepted_roots_json: Seq<char>,
    self_tags_json: Seq<char>,
) -> Result<(Seq<u8>, Seq<u8>, Seq<Seq<u8>>, Seq<Seq<char>>), RequestFault> {
    match id_from(self_id_hex) {
        Err(fault) => Err(fault),
        Ok(self_id) => match id_from(requester_hex) {
            Err(fault) => Err(fault),
            Ok(requester) => match roots_from(accepted_roots_json) {
                Err(fault) => Err(fault),
                Ok(roots) => match tags_from(self_tags_json) {
                    Err(fault) => Err(fault),
                    Ok(tags) => Ok((self_id, requester, roots, tags)),
                },
            },
        },
    }
}

/// Whether the inputs of a check can be read, and write `request`.
pub open spec fn is_request(
    request: RequestView,
    self_id_hex: Seq<char>,
    accepted_roots_json: Seq<char>,
    self_tags_json: Seq<char>,
    now: u64,
    requester_hex: Seq<char>,
    action: Seq<char>,
    revoked_json: Seq<char>,
) -> bool {
    &&& head_from(self_id_hex, requester_hex, accepted_roots_json, self_tags_json) matches Ok(head)
    &&& revoked_from(revoked_json) matches Ok(revoked)
    &&& request == (RequestView {
        self_id: head.0,
        requester: head.1,
        accepted_roots: head.2,
        self_tags: head.3,
        now,
        action,
        revoked,
    })
}

/// The outcome of a check on which the authorizer gave `verdict`.
pub open spec fn judged(verdict: Result<(), String>) -> Result<(), VaultError> {
    match verdict {
        Ok(()) => Ok(()),
        Err(reason) => Err(VaultError::Denied(reason)),
    }
}

/// Whether `result` is a right outcome of checking a chain with `parse_chain` and
/// `authorize`: the first fault of the inputs, in the order in which they are read,
/// or else what the authorizer says of the request and the chain that was read.
pub open spec fn is_checked<C, P, A>(
    self_id_hex: &str,
    accepted_roots_json: &str,
    self_tags_json: &str,
    now: u64,
    requester_hex: &str,
    action: &str,
    chain_json: &str,
    revoked_json: &str,
    parse_chain: P,
    authorize: A,
    result: Result<(), VaultError>,
) -> bool where
    P: FnOnce(&str) -> Result<Vec<C>, String>,
    A: FnOnce(&AuthorizeRequest, &Vec<C>) -> Result<(), String>,
 {
    match head_from(self_id_hex@, requester_hex@, accepted_roots_json@, self_tags_json@) {
        Err(fault) => reports(result, fault),
        Ok((self_id, requester, accepted_roots, self_tags)) => exists|
            chain: Result<Vec<C>, String>,
        |
            #[trigger] parse_chain.ensures((chain_json,), chain) && match chain {
                Err(cause) => is_json_fault(result, JsonInput::CapabilityChain, cause@),
                Ok(links) => match revoked_from(revoked_json@) {
                    Err(fault) => reports(result, fault),
                    Ok(revoked) => exists|request: AuthorizeRequest, verdict: Result<(), String>|
                        #[trigger] authorize.ensures((&request, &links), verdict) && request@ == (
                        RequestView {
                            self_id,
                            accepted_roots,
                            self_tags,
                            now,
                            requester,
                            action: action@,
                            revoked,
                        }) && result == judged(verdict),
                },
            },
    }
}

/// Reads the node ids that some texts write.
pub fn parse_node_ids(hexes: &Vec<String>) -> (ids: Result<Vec<NodeId>, VaultError>)
    ensures
        match node_ids_of(texts(hexes@)) {
            Ok(read) => ids matches Ok(ids) && id_bytes(ids@) == read,
            Err(fault) => ids == Err::<Vec<NodeId>, VaultError>(VaultError::NodeId(fault)),
        },
{
    let ghost all = texts(hexes@);
    let mut ids: Vec<NodeId> = Vec::new();
    let mut i: usize = 0;
    assert(all.take(0) == Seq::<Seq<char>>::empty());
    assert(id_bytes(ids@) == Seq::<Seq<u8>>::empty());
    while i < hexes.len()
        invariant
            i <= hexes@.len(),
            all == texts(hexes@),
            node_ids_of(all.take(i as int)) == Ok::<Seq<Seq<u8>>, NodeIdFault>(id_bytes(ids@)),
        decreases hexes@.len() - i,
    {
        let ghost before = ids@;
        assert(all.take(i + 1).drop_last() == all.take(i as int));
        assert(all.take(i + 1).last() == hexes@[i as int]@);
        match parse_node_id(hexes[i].as_str()) {
            Ok(id) => {
                ids.push(id);
                assert(id_bytes(ids@) == id_bytes(before).push(id@));
            },
            Err(fault) => {
                proof {
                    lemma_first_fault(all, i + 1);
                }
                return Err(fault);
            },
        }
        i = i + 1;
    }
    assert(all.take(hexes@.len() as int) == all);
    Ok(ids)
}

/// Reads the roots that a JSON text lists.
fn parse_roots(text: &str) -> (roots: Result<Vec<NodeId>, VaultError>)
    ensures
        match roots_from(text@) {
            Ok(read) => roots matches Ok(roots) && id_bytes(roots@) == read,
            Err(fault) => reports(roots, fault),
        },
{
    match parse_strings(text) {
        Ok(hexes) => parse_node_ids(&hexes),
        Err(error) => Err(
            VaultError::Json { input: JsonInput::AcceptedRoots, cause: error_text(&error) },
        ),
    }
}

/// Reads the tags that a JSON text lists.
fn parse_tags(text: &str) -> (tags: Result<Vec<String>, VaultError>)
    ensures
        match tags_from(text@) {
            Ok(read) => tags matches Ok(tags) && texts(tags@) == read,
            Err(fault) => reports(tags, fault),
        },
{
    match parse_strings(text) {
        Ok(tags) => Ok(tags),
        Err(error) => Err(
            VaultError::Json { input: JsonInput::SelfTags, cause: error_text(&error) },
        ),
    }
}

/// Reads the issuers of some revoked capabilities.
pub fn parse_issuers(listed: &Vec<(String, u64)>) -> (revoked: Result<
    Vec<(NodeId, u64)>,
    VaultError,
>)
    ensures
        match revoked_of(pairs(listed@)) {
            Ok(read) => revoked matches Ok(revoked) && nonce_bytes(revoked@) == read,
            Err(fault) => revoked == Err::<Vec<(NodeId, u64)>, VaultError>(
                VaultError::NodeId(fault),
            ),
        },
{
    let ghost views = pairs(listed@);
    let ghost issuers = views.map_values(|pair: (Seq<char>, u64)| pair.0);
    let mut hexes: Vec<String> = Vec::new();
    let mut i: usize = 0;
    while i < listed.len()
        invariant
            i <= listed@.len(),
            hexes@.len() == i,
            forall|j: int| 0 <= j < i ==> (#[trigger] hexes@[j])@ == listed@[j].0@,
        decreases listed@.len() - i,
    {
        hexes.push(listed[i].0.clone());
        i = i + 1;
    }
    assert(texts(hexes@) == issuers);
    let ids = match parse_node_ids(&hexes) {
        Ok(ids) => ids,
        Err(fault) => {
            return Err(fault);
        },
    };
    proof {
        lemma_ids_len(issuers);
    }
    let mut revoked: Vec<(NodeId, u64)> = Vec::new();
    let mut k: usize = 0;
    while k < listed.len()
        invariant
            k <= listed@.len(),
            ids@.len() == listed@.len(),
            revoked@.len() == k,
            forall|j: int| 0 <= j < k ==> (#[trigger] revoked@[j]) == (ids@[j], listed@[j].1),
        decreases listed@.len() - k,
    {
        revoked.push((ids[k], listed[k].1));
        k = k + 1;
    }
    assert(nonce_bytes(revoked@) == Seq::new(
        views.len(),
        |j: int| (id_bytes(ids@)[j], views[j].1),
    ));
    Ok(revoked)
}

/// Reads the revoked capabilities that a JSON text lists.
fn parse_revoked(text: &str) -> (revoked: Result<Vec<(NodeId, u64)>, VaultError>)
    ensures
        match revoked_from(text@) {
            Ok(read) => revoked matches Ok(revoked) && nonce_bytes(revoked@) == read,
            Err(fault) => reports(revoked, fault),
        },
{
    match parse_pairs(text) {
        Ok(listed) => parse_issuers(&listed),
        Err(error) => Err(
            VaultError::Json { input: JsonInput::Revoked, cause: error_text(&error) },
        ),
    }
}

/// As many node ids are read as texts are given.
proof fn lemma_ids_len(hexes: Seq<Seq<char>>)
    ensures
        node_ids_of(hexes) matches Ok(ids) ==> ids.len() == hexes.len(),
    decreases hexes.len(),
{
    if hexes.len() > 0 {
        lemma_ids_len(hexes.drop_last());
    }
}

/// Checks whether a presented capability chain authorizes `requester_hex` to
/// perform `action` on `self_id_hex`.
///
/// The inputs are read in this order: the two node ids, the accepted roots, the
/// tags, the chain, the revoked capabilities. The first that cannot be read is
/// reported; a chain that cannot be read never authorizes anything. Otherwise the
/// authorizer decides, and its reason comes back with a denial.
pub fn verify_chain<C, P, A>(
    self_id_hex: &str,
    accepted_roots_json: &str,
    self_tags_json: &str,
    now: u64,
    requester_hex: &str,
    action: &str,
    chain_json: &str,
    revoked_json: &str,
    parse_chain: P,
    authorize: A,
) -> (result: Result<(), VaultError>) where
    P: FnOnce(&str) -> Result<Vec<C>, String>,
    A: FnOnce(&AuthorizeRequest, &Vec<C>) -> Result<(), String>,

    requires
        head_from(self_id_hex@, requester_hex@, accepted_roots_json@, self_tags_json@) is Ok
            ==> parse_chain.requires((chain_json,)),
        forall|request: AuthorizeRequest, links: Vec<C>|
            is_request(
                request@,
                self_id_hex@,
                accepted_roots_json@,
                self_tags_json@,
                now,
                requester_hex@,
                action@,
                revoked_json@,
            ) && parse_chain.ensures((chain_json,), Ok(links)) ==> #[trigger] authorize.requires(
                (&request, &links),
            ),
    ensures
        is_checked(
            self_id_hex,
            accepted_roots_json,
            self_tags_json,
            now,
            requester_hex,
            action,
            chain_json,
            revoked_json,
            parse_chain,
            authorize,
            result,
        ),
{
    let self_id = match parse_node_id(self_id_hex) {
        Ok(id) => id,
        Err(fault) => {
            return Err(fault);
        },
    };
    let requester = match parse_node_id(requester_hex) {
        Ok(id) => id,
        Err(fault) => {
            return Err(fault);
        },
    };
    let accepted_roots = match parse_roots(accepted_roots_json) {
        Ok(roots) => roots,
        Err(fault) => {
            return Err(fault);
        },
    };
    let self_tags = match parse_tags(self_tags_json) {
        Ok(tags) => tags,
        Err(fault) => {
            return Err(fault);
        },
    };
    let links = match parse_chain(chain_json) {
        Ok(links) => links,
        Err(cause) => {
            return Err(VaultError::Json { input: JsonInput::CapabilityChain, cause });
        },
    };
    let revoked = match parse_revoked(revoked_json) {
        Ok(revoked) => revoked,
        Err(fault) => {
            return Err(fault);
        },
    };
    let request = AuthorizeRequest {
        self_id,
        accepted_roots,
        self_tags,
        now,
        requester,
        action: action.to_string(),
        revoked,
    };
    match authorize(&request, &links) {
        Ok(()) => Ok(()),
        Err(reason) => Err(VaultError::Denied(reason)),
    }
}

/// A fault among the first texts is the fault of all of them.
proof fn lemma_first_fault(hexes: Seq<Seq<char>>, count: int)
    requires
        0 <= count <= hexes.len(),
        node_ids_of(hexes.take(count)) is Err,
    ensures
        node_ids_of(hexes) == node_ids_of(hexes.take(count)),
    decreases hexes.len() - count,
{
    if count < hexes.len() {
        assert(hexes.take(count + 1).drop_last() == hexes.take(count));
        lemma_first_fault(hexes, count + 1);
    } else {
        assert(hexes.take(count) == hexes);
    }
}

} // verus!
