//! What a capability check makes of its inputs, input by input.

use vstd::prelude::*;

use crate::capability::{
    id_bytes, is_checked, is_request, nonce_bytes, parse_issuers, parse_node_ids, reports,
    revoked_from, revoked_of, verify_chain, AuthorizeRequest,
};
use crate::error::{JsonInput, VaultError};
use crate::error_laws::says;
use crate::json::{
    as_pair, as_text, json_error_text, pairs, pairs_error, parsed_json, parsed_pairs,
    parsed_strings, strings_error, texts, Json,
};
use crate::node_id::{node_id_of, node_ids_of, NodeId, NodeIdFault};
use crate::wasm::verify;

verus! {

/// Whether `result` reports that an id cannot be read.
pub open spec fn reports_id<T>(result: Result<T, VaultError>, fault: NodeIdFault) -> bool {
    result matches Err(VaultError::NodeId(reported)) && reported == fault
}

/// Whether `result` reports that an input is not the JSON it should be, with its cause.
pub open spec fn reports_json<T>(
    result: Result<T, VaultError>,
    input: JsonInput,
    cause: Seq<char>,
) -> bool {
    result matches Err(VaultError::Json { input: reported, cause: words }) && reported == input
        && words@ == cause
}

/// Whether each text writes a node id.
pub open spec fn all_ids(hexes: Seq<Seq<char>>) -> bool {
    forall|i: int| 0 <= i < hexes.len() ==> node_id_of(#[trigger] hexes[i]) is Ok
}

/// Whether `fault` is that of the first text that writes no node id.
pub open spec fn is_first_fault(hexes: Seq<Seq<char>>, fault: NodeIdFault) -> bool {
    exists|i: int|
        0 <= i < hexes.len() && node_id_of(#[trigger] hexes[i]) == Err::<Seq<u8>, NodeIdFault>(
            fault,
        ) && all_ids(hexes.take(i))
}

/// Whether `ids` are what the texts write, one for one.
pub open spec fn writes_ids(hexes: Seq<Seq<char>>, ids: Seq<NodeId>) -> bool {
    &&& ids.len() == hexes.len()
    &&& forall|i: int|
        0 <= i < hexes.len() ==> node_id_of(#[trigger] hexes[i]) == Ok::<Seq<u8>, NodeIdFault>(
            ids[i]@,
        )
}

/// Whether `revoked` are the listed pairs with their issuers read, one for one.
pub open spec fn writes_pairs(
    listed: Seq<(Seq<char>, u64)>,
    revoked: Seq<(NodeId, u64)>,
) -> bool {
    &&& revoked.len() == listed.len()
    &&& forall|i: int|
        0 <= i < listed.len() ==> node_id_of((#[trigger] listed[i]).0) == Ok::<
            Seq<u8>,
            NodeIdFault,
        >(revoked[i].0@) && revoked[i].1 == listed[i].1
}

/// The texts that the listed pairs have for their issuers.
pub open spec fn issuer_texts(listed: Seq<(Seq<char>, u64)>) -> Seq<Seq<char>> {
    Seq::new(listed.len(), |i: int| listed[i].0)
}

/// Whether a request holds what the inputs of a check write, field by field: each listed
/// root, tag and revoked pair at its place, and nothing else.
pub open spec fn asks(
    request: AuthorizeRequest,
    self_id_hex: Seq<char>,
    accepted_roots_json: Seq<char>,
    self_tags_json: Seq<char>,
    now: u64,
    requester_hex: Seq<char>,
    action: Seq<char>,
    revoked_json: Seq<char>,
) -> bool {
    &&& node_id_of(self_id_hex) == Ok::<Seq<u8>, NodeIdFault>(request.self_id@)
    &&& node_id_of(requester_hex) == Ok::<Seq<u8>, NodeIdFault>(request.requester@)
    &&& parsed_strings(accepted_roots_json) matches Some(hexes) && writes_ids(
        hexes,
        request.accepted_roots@,
    )
    &&& parsed_strings(self_tags_json) matches Some(tags) && request.self_tags@.len() == tags.len()
        && forall|j: int| 0 <= j < tags.len() ==> #[trigger] tags[j] == request.self_tags@[j]@
    &&& request.now == now
    &&& request.action@ == action
    &&& parsed_pairs(revoked_json) matches Some(listed) && writes_pairs(listed, request.revoked@)
}

/// Whether `result` is what a check must give: the inputs are read in their order, the
/// first that cannot be read is reported, and otherwise the authorizer's word counts on
/// the request that the inputs write and the chain that was read.
pub open spec fn comes_out_right<C, P, A>(
    self_id_hex: &str,
    accepted_roots_json: &str,
    self_tags_json: &str,
    now: u64,
    requester_hex: &str,
    action: &str,
    chain_json: &str,
    revoked_json: &str,
    parse_chain: P,
    authorize: A,
    result: Result<(), VaultError>,
) -> bool where
    P: FnOnce(&str) -> Result<Vec<C>, String>,
    A: FnOnce(&AuthorizeRequest, &Vec<C>) -> Result<(), String>,
 {
    match (node_id_of(self_id_hex@), node_id_of(requester_hex@)) {
        (Err(fault), _) => reports_id(result, fault),
        (Ok(_), Err(fault)) => reports_id(result, fault),
        _ => match parsed_strings(accepted_roots_json@) {
            None => reports_json(
                result,
                JsonInput::AcceptedRoots,
                json_error_text(strings_error(accepted_roots_json@)),
            ),
            Some(roots) => if !all_ids(roots) {
                exists|fault: NodeIdFault| #[trigger]
                    is_first_fault(roots, fault) && reports_id(result, fault)
            } else if parsed_strings(self_tags_json@) is None {
                reports_json(
                    result,
                    JsonInput::SelfTags,
                    json_error_text(strings_error(self_tags_json@)),
                )
            } else {
                exists|chain: Result<Vec<C>, String>| #[trigger]
                    parse_chain.ensures((chain_json,), chain) && match chain {
                        Err(cause) => reports_json(result, JsonInput::CapabilityChain, cause@),
                        Ok(links) => match parsed_pairs(revoked_json@) {
                            None => reports_json(
                                result,
                                JsonInput::Revoked,
                                json_error_text(pairs_error(revoked_json@)),
                            ),
                            Some(listed) => if !all_ids(issuer_texts(listed)) {
                                exists|fault: NodeIdFault| #[trigger]
                                    is_first_fault(issuer_texts(listed), fault) && reports_id(
                                        result,
                                        fault,
                                    )
                            } else {
                                exists|request: AuthorizeRequest, verdict: Result<(), String>|
                                    #[trigger] authorize.ensures((&request, &links), verdict)
                                        && asks(
                                            request,
                                            self_id_hex@,
                                            accepted_roots_json@,
                                            self_tags_json@,
                                            now,
                                            requester_hex@,
                                            action@,
                                            revoked_json@,
                                        ) && match verdict {
                                        Ok(_) => result is Ok,
                                        Err(reason) => result == Err::<(), VaultError>(
                                            VaultError::Denied(reason),
                                        ),
                                    }
                            },
                        },
                    }
            },
        },
    }
}

/// `verify_chain` comes out right on all inputs: the first fault in reading order is what
/// it reports, every listed root, tag and revoked pair reaches the authorizer, and the
/// authorizer's word is the result.
pub proof fn a_check_comes_out_right<C, P, A>(
    self_id_hex: &str,
    accepted_roots_json: &str,
    self_tags_json: &str,
    now: u64,
    requester_hex: &str,
    action: &str,
    chain_json: &str,
    revoked_json: &str,
    parse_chain: P,
    authorize: A,
    result: Result<(), VaultError>,
) where
    P: FnOnce(&str) -> Result<Vec<C>, String>,
    A: FnOnce(&AuthorizeRequest, &Vec<C>) -> Result<(), String>,

    requires
        call_ensures(
            verify_chain::<C, P, A>,
            (
                self_id_hex,
                accepted_roots_json,
                self_tags_json,
                now,
                requester_hex,
                action,
                chain_json,
                revoked_json,
                parse_chain,
                authorize,
            ),
            result,
        ),
    ensures
        comes_out_right(
            self_id_hex,
            accepted_roots_json,
            self_tags_json,
            now,
            requester_hex,
            action,
            chain_json,
            revoked_json,
            parse_chain,
            authorize,
            result,
        ),
{
    lemma_right(
        self_id_hex,
        accepted_roots_json,
        self_tags_json,
        now,
        requester_hex,
        action,
        chain_json,
        revoked_json,
        parse_chain,
        authorize,
        result,
    );
}

/// A check that follows its inputs comes out right.
proof fn lemma_right<C, P, A>(
    self_id_hex: &str,
    accepted_roots_json: &str,
    self_tags_json: &str,
    now: u64,
    requester_hex: &str,
    action: &str,
    chain_json: &str,
    revoked_json: &str,
    parse_chain: P,
    authorize: A,
    result: Result<(), VaultError>,
) where
    P: FnOnce(&str) -> Result<Vec<C>, String>,
    A: FnOnce(&AuthorizeRequest, &Vec<C>) -> Result<(), String>,

    requires
        is_checked(
            self_id_hex,
            accepted_roots_json,
            self_tags_json,
            now,
            requester_hex,
            action,
            chain_json,
            revoked_json,
            parse_chain,
            authorize,
            result,
        ),
    ensures
        comes_out_right(
            self_id_hex,
            accepted_roots_json,
            self_tags_json,
            now,
            requester_hex,
            action,
            chain_json,
            revoked_json,
            parse_chain,
            authorize,
            result,
        ),
{
    if node_id_of(self_id_hex@) is Ok && node_id_of(requester_hex@) is Ok && parsed_strings(
        accepted_roots_json@,
    ) is Some {
        let roots = parsed_strings(accepted_roots_json@)->0;
        lemma_ids(roots);
        if all_ids(roots) && parsed_strings(self_tags_json@) is Some {
            let chain = choose|chain: Result<Vec<C>, String>| #[trigger]
                parse_chain.ensures((chain_json,), chain) && is_judged(
                    self_id_hex,
                    accepted_roots_json,
                    self_tags_json,
                    now,
                    requester_hex,
                    action,
                    chain_json,
                    revoked_json,
                    chain,
                    authorize,
                    result,
                );
            if chain is Ok && parsed_pairs(revoked_json@) is Some {
                let listed = parsed_pairs(revoked_json@)->0;
                let hexes = listed.map_values(|pair: (Seq<char>, u64)| pair.0);
                assert(hexes == issuer_texts(listed));
                lemma_ids(hexes);
                if all_ids(hexes) {
                    let (request, verdict) = choose|
                        request: AuthorizeRequest,
                        verdict: Result<(), String>,
                    |
                        #[trigger] authorize.ensures((&request, &chain->Ok_0), verdict)
                            && is_request(
                            request@,
                            self_id_hex@,
                            accepted_roots_json@,
                            self_tags_json@,
                            now,
                            requester_hex@,
                            action@,
                            revoked_json@,
                        ) && result == (match verdict {
                            Ok(_) => Ok::<(), VaultError>(()),
                            Err(reason) => Err::<(), VaultError>(VaultError::Denied(reason)),
                        });
                    lemma_asked(
                        request,
                        self_id_hex@,
                        accepted_roots_json@,
                        self_tags_json@,
                        now,
                        requester_hex@,
                        action@,
                        revoked_json@,
                    );
                }
            }
        }
    }
}

/// What a check gives once its chain is read.
spec fn is_judged<C, A>(
    self_id_hex: &str,
    accepted_roots_json: &str,
    self_tags_json: &str,
    now: u64,
    requester_hex: &str,
    action: &str,
    chain_json: &str,
    revoked_json: &str,
    chain: Result<Vec<C>, String>,
    authorize: A,
    result: Result<(), VaultError>,
) -> bool where A: FnOnce(&AuthorizeRequest, &Vec<C>) -> Result<(), String> {
    match chain {
        Err(cause) => reports_json(result, JsonInput::CapabilityChain, cause@),
        Ok(links) => match revoked_from(revoked_json@) {
            Err(fault) => reports(result, fault),
            Ok(_) => exists|request: AuthorizeRequest, verdict: Result<(), String>|
                #[trigger] authorize.ensures((&request, &links), verdict) && is_request(
                    request@,
                    self_id_hex@,
                    accepted_roots_json@,
                    self_tags_json@,
                    now,
                    requester_hex@,
                    action@,
                    revoked_json@,
                ) && result == (match verdict {
                    Ok(_) => Ok::<(), VaultError>(()),
                    Err(reason) => Err::<(), VaultError>(VaultError::Denied(reason)),
                }),
        },
    }
}

/// A request that inputs write holds, field by field, what they write.
proof fn lemma_asked(
    request: AuthorizeRequest,
    self_id_hex: Seq<char>,
    accepted_roots_json: Seq<char>,
    self_tags_json: Seq<char>,
    now: u64,
    requester_hex: Seq<char>,
    action: Seq<char>,
    revoked_json: Seq<char>,
)
    requires
        is_request(
            request@,
            self_id_hex,
            accepted_roots_json,
            self_tags_json,
            now,
            requester_hex,
            action,
            revoked_json,
        ),
    ensures
        asks(
            request,
            self_id_hex,
            accepted_roots_json,
            self_tags_json,
            now,
            requester_hex,
            action,
            revoked_json,
        ),
{
    let view = request@;
    let hexes = parsed_strings(accepted_roots_json)->0;
    lemma_ids(hexes);
    assert forall|i: int| 0 <= i < hexes.len() implies node_id_of(#[trigger] hexes[i]) == Ok::<
        Seq<u8>,
        NodeIdFault,
    >(request.accepted_roots@[i]@) by {
        assert(view.accepted_roots[i] == request.accepted_roots@[i]@);
    }
    let tags = parsed_strings(self_tags_json)->0;
    assert forall|j: int| 0 <= j < tags.len() implies #[trigger] tags[j]
        == request.self_tags@[j]@ by {
        assert(view.self_tags[j] == request.self_tags@[j]@);
    }
    let listed = parsed_pairs(revoked_json)->0;
    let issuers = listed.map_values(|pair: (Seq<char>, u64)| pair.0);
    lemma_ids(issuers);
    assert(view.revoked == revoked_of(listed)->Ok_0);
    assert forall|i: int| 0 <= i < listed.len() implies node_id_of((#[trigger] listed[i]).0)
        == Ok::<Seq<u8>, NodeIdFault>(request.revoked@[i].0@) && request.revoked@[i].1
        == listed[i].1 by {
        assert(issuers[i] == listed[i].0);
        assert(view.revoked[i] == (request.revoked@[i].0@, request.revoked@[i].1));
    }
}

/// `verify` comes out as the check does: `true` where the check succeeds, never `false`,
/// and otherwise what the check's error says.
pub proof fn a_verification_comes_out_right<C, P, A>(
    self_id_hex: &str,
    accepted_roots_json: &str,
    self_tags_json: &str,
    now: u64,
    requester_hex: &str,
    action: &str,
    chain_json: &str,
    revoked_json: &str,
    parse_chain: P,
    authorize: A,
    result: Result<bool, String>,
) where
    P: FnOnce(&str) -> Result<Vec<C>, String>,
    A: FnOnce(&AuthorizeRequest, &Vec<C>) -> Result<(), String>,

    requires
        call_ensures(
            verify::<C, P, A>,
            (
                self_id_hex,
                accepted_roots_json,
                self_tags_json,
                now,
                requester_hex,
                action,
                chain_json,
                revoked_json,
                parse_chain,
                authorize,
            ),
            result,
        ),
    ensures
        exists|checked: Result<(), VaultError>| #[trigger]
            comes_out_right(
                self_id_hex,
                accepted_roots_json,
                self_tags_json,
                now,
                requester_hex,
                action,
                chain_json,
                revoked_json,
                parse_chain,
                authorize,
                checked,
            ) && match checked {
                Ok(_) => result == Ok::<bool, String>(true),
                Err(error) => result matches Err(text) && says(error, text@),
            },
{
    let checked = choose|checked: Result<(), VaultError>| #[trigger]
        is_checked(
            self_id_hex,
            accepted_roots_json,
            self_tags_json,
            now,
            requester_hex,
            action,
            chain_json,
            revoked_json,
            parse_chain,
            authorize,
            checked,
        ) && match checked {
            Ok(()) => result == Ok::<bool, String>(true),
            Err(error) => result matches Err(text) && text@ == error.message_text(),
        };
    lemma_right(
        self_id_hex,
        accepted_roots_json,
        self_tags_json,
        now,
        requester_hex,
        action,
        chain_json,
        revoked_json,
        parse_chain,
        authorize,
        checked,
    );
}

/// A request whose inputs can all be read is authorized if the chain can only be read and
/// the authorizer can only accept.
pub proof fn nothing_else_denies<C, P, A>(
    self_id_hex: &str,
    accepted_roots_json: &str,
    self_tags_json: &str,
    now: u64,
    requester_hex: &str,
    action: &str,
    chain_json: &str,
    revoked_json: &str,
    parse_chain: P,
    authorize: A,
    result: Result<(), VaultError>,
) where
    P: FnOnce(&str) -> Result<Vec<C>, String>,
    A: FnOnce(&AuthorizeRequest, &Vec<C>) -> Result<(), String>,

    requires
        call_ensures(
            verify_chain::<C, P, A>,
            (
                self_id_hex,
                accepted_roots_json,
                self_tags_json,
                now,
                requester_hex,
                action,
                chain_json,
                revoked_json,
                parse_chain,
                authorize,
            ),
            result,
        ),
        node_id_of(self_id_hex@) is Ok,
        node_id_of(requester_hex@) is Ok,
        parsed_strings(accepted_roots_json@) matches Some(roots) && all_ids(roots),
        parsed_strings(self_tags_json@) is Some,
        parsed_pairs(revoked_json@) matches Some(listed) && all_ids(issuer_texts(listed)),
        forall|chain: Result<Vec<C>, String>| #[trigger]
            parse_chain.ensures((chain_json,), chain) ==> chain is Ok,
        forall|request: AuthorizeRequest, links: Vec<C>, verdict: Result<(), String>| #[trigger]
            authorize.ensures((&request, &links), verdict) && asks(
                request,
                self_id_hex@,
                accepted_roots_json@,
                self_tags_json@,
                now,
                requester_hex@,
                action@,
                revoked_json@,
            ) ==> verdict is Ok,
    ensures
        result is Ok,
{
    a_check_comes_out_right(
        self_id_hex,
        accepted_roots_json,
        self_tags_json,
        now,
        requester_hex,
        action,
        chain_json,
        revoked_json,
        parse_chain,
        authorize,
        result,
    );
}

/// Whatever its inputs, a check can be made with functions that accept whatever they are
/// given, and so can a verification.
pub proof fn every_check_can_be_made<C, P, A>(
    self_id_hex: &str,
    accepted_roots_json: &str,
    self_tags_json: &str,
    now: u64,
    requester_hex: &str,
    action: &str,
    chain_json: &str,
    revoked_json: &str,
    parse_chain: P,
    authorize: A,
) where
    P: FnOnce(&str) -> Result<Vec<C>, String>,
    A: FnOnce(&AuthorizeRequest, &Vec<C>) -> Result<(), String>,

    requires
        forall|text: &str| #[trigger] parse_chain.requires((text,)),
        forall|request: AuthorizeRequest, links: Vec<C>| #[trigger]
            authorize.requires((&request, &links)),
    ensures
        call_requires(
            verify_chain::<C, P, A>,
            (
                self_id_hex,
                accepted_roots_json,
                self_tags_json,
                now,
                requester_hex,
                action,
                chain_json,
                revoked_json,
                parse_chain,
                authorize,
            ),
        ),
        call_requires(
            verify::<C, P, A>,
            (
                self_id_hex,
                accepted_roots_json,
                self_tags_json,
                now,
                requester_hex,
                action,
                chain_json,
                revoked_json,
                parse_chain,
                authorize,
            ),
        ),
{
}

/// Node ids are read one for one, or the fault of the first text that writes none is
/// reported.
pub proof fn ids_are_read_one_for_one(
    hexes: Vec<String>,
    read: Result<Vec<NodeId>, VaultError>,
)
    requires
        call_ensures(parse_node_ids, (&hexes,), read),
    ensures
        read is Ok <==> forall|i: int|
            0 <= i < hexes@.len() ==> node_id_of((#[trigger] hexes@[i])@) is Ok,
        read matches Ok(ids) ==> ids@.len() == hexes@.len() && forall|i: int|
            0 <= i < hexes@.len() ==> node_id_of((#[trigger] hexes@[i])@) == Ok::<
                Seq<u8>,
                NodeIdFault,
            >(ids@[i]@),
        read is Err ==> exists|i: int, fault: NodeIdFault|
            0 <= i < hexes@.len() && #[trigger] writes_none(hexes@[i]@, fault) && reports_id(
                read,
                fault,
            ) && forall|j: int| 0 <= j < i ==> node_id_of((#[trigger] hexes@[j])@) is Ok,
{
    let views = texts(hexes@);
    lemma_ids(views);
    assert forall|i: int| 0 <= i < hexes@.len() implies views[i] == (#[trigger] hexes@[i])@ by {}
    if read is Ok {
        assert forall|i: int| 0 <= i < hexes@.len() implies node_id_of((#[trigger] hexes@[i])@)
            == Ok::<Seq<u8>, NodeIdFault>(read->Ok_0@[i]@) by {
            assert(node_id_of(views[i]) == Ok::<Seq<u8>, NodeIdFault>(
                id_bytes(read->Ok_0@)[i],
            ));
        }
    } else {
        let fault = read->Err_0->NodeId_0;
        let i = choose|i: int|
            0 <= i < views.len() && node_id_of(#[trigger] views[i]) == Err::<
                Seq<u8>,
                NodeIdFault,
            >(fault) && all_ids(views.take(i));
        assert(writes_none(hexes@[i]@, fault));
        assert forall|j: int| 0 <= j < i implies node_id_of((#[trigger] hexes@[j])@) is Ok by {
            assert(views.take(i)[j] == hexes@[j]@);
        }
    }
}

/// Whether a text writes no node id, for this fault.
pub open spec fn writes_none(text: Seq<char>, fault: NodeIdFault) -> bool {
    node_id_of(text) == Err::<Seq<u8>, NodeIdFault>(fault)
}

/// Revoked pairs are read one for one, each with its own nonce, or the fault of the first
/// issuer that is no node id is reported.
pub proof fn issuers_are_read_one_for_one(
    listed: Vec<(String, u64)>,
    read: Result<Vec<(NodeId, u64)>, VaultError>,
)
    requires
        call_ensures(parse_issuers, (&listed,), read),
    ensures
        read is Ok <==> forall|i: int|
            0 <= i < listed@.len() ==> node_id_of((#[trigger] listed@[i]).0@) is Ok,
        read matches Ok(revoked) ==> revoked@.len() == listed@.len() && forall|i: int|
            0 <= i < listed@.len() ==> node_id_of((#[trigger] listed@[i]).0@) == Ok::<
                Seq<u8>,
                NodeIdFault,
            >(revoked@[i].0@) && revoked@[i].1 == listed@[i].1,
        read is Err ==> exists|i: int, fault: NodeIdFault|
            0 <= i < listed@.len() && #[trigger] writes_none(listed@[i].0@, fault) && reports_id(
                read,
                fault,
            ) && forall|j: int| 0 <= j < i ==> node_id_of((#[trigger] listed@[j]).0@) is Ok,
{
    let views = pairs(listed@);
    let hexes = views.map_values(|pair: (Seq<char>, u64)| pair.0);
    lemma_ids(hexes);
    assert forall|i: int| 0 <= i < listed@.len() implies hexes[i] == (#[trigger] listed@[i]).0@
        && views[i].1 == listed@[i].1 by {}
    if read is Ok {
        let revoked = read->Ok_0;
        let bytes = nonce_bytes(revoked@);
        assert(bytes == revoked_of(views)->Ok_0);
        assert(revoked@.len() == bytes.len());
        assert forall|i: int| 0 <= i < listed@.len() implies node_id_of(
            (#[trigger] listed@[i]).0@,
        ) == Ok::<Seq<u8>, NodeIdFault>(revoked@[i].0@) && revoked@[i].1 == listed@[i].1 by {
            assert(bytes[i] == (revoked@[i].0@, revoked@[i].1));
            assert(hexes[i] == listed@[i].0@);
        }
    } else {
        let fault = read->Err_0->NodeId_0;
        let i = choose|i: int|
            0 <= i < hexes.len() && node_id_of(#[trigger] hexes[i]) == Err::<
                Seq<u8>,
                NodeIdFault,
            >(fault) && all_ids(hexes.take(i));
        assert(writes_none(listed@[i].0@, fault));
        assert forall|j: int| 0 <= j < i implies node_id_of((#[trigger] listed@[j]).0@) is Ok by {
            assert(hexes.take(i)[j] == listed@[j].0@);
        }
    }
}

/// A capability is revoked exactly if one pair of the request has both its issuer and its
/// nonce.
pub proof fn revoked_means_listed(
    request: AuthorizeRequest,
    issuer: NodeId,
    nonce: u64,
    revoked: bool,
)
    requires
        call_ensures(AuthorizeRequest::is_revoked, (&request, &issuer, nonce), revoked),
    ensures
        revoked <==> exists|j: int|
            0 <= j < request.revoked@.len() && (#[trigger] request.revoked@[j]).0@ == issuer@
                && request.revoked@[j].1 == nonce,
{
    let view = request@.revoked;
    assert forall|j: int| 0 <= j < request.revoked@.len() implies view[j] == (
        (#[trigger] request.revoked@[j]).0@,
        request.revoked@[j].1,
    ) by {}
    if revoked {
        let j = view.index_of((issuer@, nonce));
        assert(view[j] == (request.revoked@[j].0@, request.revoked@[j].1));
    }
    if exists|j: int|
        0 <= j < request.revoked@.len() && (#[trigger] request.revoked@[j]).0@ == issuer@
            && request.revoked@[j].1 == nonce {
        let j = choose|j: int|
            0 <= j < request.revoked@.len() && (#[trigger] request.revoked@[j]).0@ == issuer@
                && request.revoked@[j].1 == nonce;
        assert(view[j] == (issuer@, nonce));
    }
}

/// A text lists strings exactly if it is a JSON array of strings alone, and it lists
/// them one for one, in their order.
pub proof fn what_lists_strings(text: Seq<char>)
    ensures
        parsed_strings(text) is Some <==> (parsed_json(text) matches Some(Json::Array(items))
            && forall|i: int| 0 <= i < items.len() ==> (#[trigger] items[i]) is Text),
        parsed_strings(text) matches Some(strings) ==> (parsed_json(text) matches Some(
            Json::Array(items),
        ) && strings.len() == items.len() && forall|i: int|
            0 <= i < items.len() ==> #[trigger] items[i] == Json::Text(strings[i])),
{
    if let Some(Json::Array(items)) = parsed_json(text) {
        if parsed_strings(text) is Some {
            assert forall|i: int| 0 <= i < items.len() implies (#[trigger] items[i]) is Text by {
                assert(as_text(items[i]) is Some);
            }
        }
    }
}

/// A text lists pairs exactly if it is a JSON array of arrays, each of a string and an
/// integer of the `u64` range alone, and it lists them one for one, in their order.
pub proof fn what_lists_pairs(text: Seq<char>)
    ensures
        parsed_pairs(text) is Some <==> (parsed_json(text) matches Some(Json::Array(items))
            && forall|i: int| 0 <= i < items.len() ==> is_pair(#[trigger] items[i])),
        parsed_pairs(text) matches Some(listed) ==> (parsed_json(text) matches Some(
            Json::Array(items),
        ) && listed.len() == items.len() && forall|i: int|
            0 <= i < items.len() ==> #[trigger] items[i] == Json::Array(
                seq![Json::Text(listed[i].0), Json::Int(listed[i].1 as int)],
            )),
{
    if let Some(Json::Array(items)) = parsed_json(text) {
        if parsed_pairs(text) is Some {
            let listed = parsed_pairs(text)->0;
            assert forall|i: int| 0 <= i < items.len() implies is_pair(#[trigger] items[i])
                && items[i] == Json::Array(
                seq![Json::Text(listed[i].0), Json::Int(listed[i].1 as int)],
            ) by {
                assert(as_pair(items[i]) is Some);
                assert(items[i]->Array_0 == seq![
                    Json::Text(listed[i].0),
                    Json::Int(listed[i].1 as int),
                ]);
            }
        }
    }
}

/// Whether a value is an array of a string and an integer of the `u64` range.
pub open spec fn is_pair(json: Json) -> bool {
    json matches Json::Array(items) && items.len() == 2 && items[0] is Text && (
    items[1] matches Json::Int(number) && 0 <= number <= u64::MAX)
}

/// What reading some texts as node ids comes to.
proof fn lemma_ids(hexes: Seq<Seq<char>>)
    ensures
        node_ids_of(hexes) is Ok <==> all_ids(hexes),
        node_ids_of(hexes) matches Ok(ids) ==> ids.len() == hexes.len() && forall|i: int|
            0 <= i < hexes.len() ==> node_id_of(#[trigger] hexes[i]) == Ok::<Seq<u8>, NodeIdFault>(
                ids[i],
            ),
        node_ids_of(hexes) matches Err(fault) ==> is_first_fault(hexes, fault),
    decreases hexes.len(),
{
    if hexes.len() > 0 {
        let shorter = hexes.drop_last();
        lemma_ids(shorter);
        assert(shorter == hexes.take(hexes.len() - 1));
        if all_ids(hexes) {
            assert forall|i: int| 0 <= i < shorter.len() implies node_id_of(
                #[trigger] shorter[i],
            ) is Ok by {
                assert(shorter[i] == hexes[i]);
            }
            assert(node_id_of(hexes[hexes.len() - 1]) is Ok);
        }
        match node_ids_of(hexes) {
            Ok(ids) => {
                assert forall|i: int| 0 <= i < hexes.len() implies node_id_of(
                    #[trigger] hexes[i],
                ) == Ok::<Seq<u8>, NodeIdFault>(ids[i]) by {
                    if i < shorter.len() {
                        assert(shorter[i] == hexes[i]);
                    }
                }
            },
            Err(fault) => {
                if node_ids_of(shorter) is Ok {
                    assert(node_id_of(hexes[hexes.len() - 1]) == Err::<Seq<u8>, NodeIdFault>(
                        fault,
                    ));
                } else {
                    let i = choose|i: int|
                        0 <= i < shorter.len() && node_id_of(#[trigger] shorter[i]) == Err::<
                            Seq<u8>,
                            NodeIdFault,
                        >(fault) && all_ids(shorter.take(i));
                    assert(shorter.take(i) == hexes.take(i));
                    assert(hexes[i] == shorter[i]);
                }
            },
        }
    }
}

} // verus!
