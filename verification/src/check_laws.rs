//! What holds of capability checks.
//!
//! The authorizer comes in as a function, so each law says what it takes of the
//! authorizer, where it takes anything.

use vstd::prelude::*;

use crate::capability::{
    is_checked, is_request, revoked_from, revoked_of, AuthorizeRequest, RequestView,
};
use crate::error::VaultError;
use crate::json::parsed_pairs;
use crate::node_id::{node_id_of, node_ids_of, NodeIdFault};
use crate::wasm::is_verified;

verus! {

/// A request is authorized only by the authorizer: a check succeeds only if all inputs
/// and the chain can be read, and the authorizer accepts exactly the request that they
/// write, with that chain.
pub proof fn only_the_authorizer_authorizes<C, P, A>(
    self_id_hex: &str,
    accepted_roots_json: &str,
    self_tags_json: &str,
    now: u64,
    requester_hex: &str,
    action: &str,
    chain_json: &str,
    revoked_json: &str,
    parse_chain: P,
    authorize: A,
    result: Result<(), VaultError>,
) where
    P: FnOnce(&str) -> Result<Vec<C>, String>,
    A: FnOnce(&AuthorizeRequest, &Vec<C>) -> Result<(), String>,

    requires
        is_checked(
            self_id_hex,
            accepted_roots_json,
            self_tags_json,
            now,
            requester_hex,
            action,
            chain_json,
            revoked_json,
            parse_chain,
            authorize,
            result,
        ),
        result is Ok,
    ensures
        exists|links: Vec<C>, request: AuthorizeRequest| #[trigger]
            authorize.ensures((&request, &links), Ok(())) && parse_chain.ensures(
                (chain_json,),
                Ok(links),
            ) && is_request(
                request@,
                self_id_hex@,
                accepted_roots_json@,
                self_tags_json@,
                now,
                requester_hex@,
                action@,
                revoked_json@,
            ),
{
    let chain = choose|chain: Result<Vec<C>, String>| #[trigger]
        parse_chain.ensures((chain_json,), chain) && chain is Ok && exists|
            request: AuthorizeRequest,
            verdict: Result<(), String>,
        |
            #[trigger] authorize.ensures((&request, &chain->Ok_0), verdict) && is_request(
                request@,
                self_id_hex@,
                accepted_roots_json@,
                self_tags_json@,
                now,
                requester_hex@,
                action@,
                revoked_json@,
            ) && verdict is Ok;
    let (request, verdict) = choose|request: AuthorizeRequest, verdict: Result<(), String>|
        #[trigger] authorize.ensures((&request, &chain->Ok_0), verdict) && is_request(
            request@,
            self_id_hex@,
            accepted_roots_json@,
            self_tags_json@,
            now,
            requester_hex@,
            action@,
            revoked_json@,
        ) && verdict is Ok;
    assert(verdict->Ok_0 == ());
}

/// Default deny: a chain that cannot be read, or that is read as empty by an authorizer
/// that denies every empty chain, authorizes nothing.
pub proof fn an_empty_or_unreadable_chain_is_denied<C, P, A>(
    self_id_hex: &str,
    accepted_roots_json: &str,
    self_tags_json: &str,
    now: u64,
    requester_hex: &str,
    action: &str,
    chain_json: &str,
    revoked_json: &str,
    parse_chain: P,
    authorize: A,
    result: Result<(), VaultError>,
) where
    P: FnOnce(&str) -> Result<Vec<C>, String>,
    A: FnOnce(&AuthorizeRequest, &Vec<C>) -> Result<(), String>,

    requires
        is_checked(
            self_id_hex,
            accepted_roots_json,
            self_tags_json,
            now,
            requester_hex,
            action,
            chain_json,
            revoked_json,
            parse_chain,
            authorize,
            result,
        ),
        forall|links: Vec<C>| #[trigger]
            parse_chain.ensures((chain_json,), Ok(links)) ==> links@.len() == 0,
        forall|request: AuthorizeRequest, links: Vec<C>| #[trigger]
            authorize.ensures((&request, &links), Ok(())) ==> links@.len() > 0,
    ensures
        result is Err,
{
    if result is Ok {
        only_the_authorizer_authorizes(
            self_id_hex,
            accepted_roots_json,
            self_tags_json,
            now,
            requester_hex,
            action,
            chain_json,
            revoked_json,
            parse_chain,
            authorize,
            result,
        );
    }
}

/// What the authorizer is asked is fixed by the inputs of the call alone: no two requests
/// are written by the same inputs.
pub proof fn the_inputs_fix_the_request(
    first: RequestView,
    second: RequestView,
    self_id_hex: Seq<char>,
    accepted_roots_json: Seq<char>,
    self_tags_json: Seq<char>,
    now: u64,
    requester_hex: Seq<char>,
    action: Seq<char>,
    revoked_json: Seq<char>,
)
    requires
        is_request(
            first,
            self_id_hex,
            accepted_roots_json,
            self_tags_json,
            now,
            requester_hex,
            action,
            revoked_json,
        ),
        is_request(
            second,
            self_id_hex,
            accepted_roots_json,
            self_tags_json,
            now,
            requester_hex,
            action,
            revoked_json,
        ),
    ensures
        first == second,
{
}

/// The authorizer is told exactly of the revoked pairs that are listed: a request has an
/// issuer and a nonce as revoked if and only if one listed pair writes both.
pub proof fn the_authorizer_is_told_what_is_revoked(
    request: RequestView,
    issuer: Seq<u8>,
    nonce: u64,
    self_id_hex: Seq<char>,
    accepted_roots_json: Seq<char>,
    self_tags_json: Seq<char>,
    now: u64,
    requester_hex: Seq<char>,
    action: Seq<char>,
    revoked_json: Seq<char>,
)
    requires
        is_request(
            request,
            self_id_hex,
            accepted_roots_json,
            self_tags_json,
            now,
            requester_hex,
            action,
            revoked_json,
        ),
    ensures
        parsed_pairs(revoked_json) is Some,
        request.revoked.contains((issuer, nonce)) <==> exists|j: int|
            0 <= j < parsed_pairs(revoked_json)->0.len() && node_id_of(
                (#[trigger] parsed_pairs(revoked_json)->0[j]).0,
            ) == Ok::<Seq<u8>, NodeIdFault>(issuer) && parsed_pairs(revoked_json)->0[j].1 == nonce,
{
    let listed = parsed_pairs(revoked_json)->0;
    let hexes = listed.map_values(|pair: (Seq<char>, u64)| pair.0);
    assert(request.revoked == revoked_of(listed)->Ok_0);
    if request.revoked.contains((issuer, nonce)) {
        let j = request.revoked.index_of((issuer, nonce));
        lemma_id_at(hexes, j);
        assert(node_id_of(listed[j].0) == Ok::<Seq<u8>, NodeIdFault>(issuer));
    }
    if exists|j: int|
        0 <= j < listed.len() && node_id_of((#[trigger] listed[j]).0) == Ok::<
            Seq<u8>,
            NodeIdFault,
        >(issuer) && listed[j].1 == nonce {
        let j = choose|j: int|
            0 <= j < listed.len() && node_id_of((#[trigger] listed[j]).0) == Ok::<
                Seq<u8>,
                NodeIdFault,
            >(issuer) && listed[j].1 == nonce;
        lemma_id_at(hexes, j);
        assert(request.revoked[j] == (issuer, nonce));
    }
}

/// `verify` can give `true` exactly where `verify_chain` can succeed, never gives `false`,
/// and can throw exactly the texts of the errors that `verify_chain` can report. This
/// holds whatever the chain reader and the authorizer do.
pub proof fn verify_and_verify_chain_agree<C, P, A>(
    self_id_hex: &str,
    accepted_roots_json: &str,
    self_tags_json: &str,
    now: u64,
    requester_hex: &str,
    action: &str,
    chain_json: &str,
    revoked_json: &str,
    parse_chain: P,
    authorize: A,
) where
    P: FnOnce(&str) -> Result<Vec<C>, String>,
    A: FnOnce(&AuthorizeRequest, &Vec<C>) -> Result<(), String>,

    ensures
        is_verified(
            self_id_hex,
            accepted_roots_json,
            self_tags_json,
            now,
            requester_hex,
            action,
            chain_json,
            revoked_json,
            parse_chain,
            authorize,
            Ok(true),
        ) <==> is_checked(
            self_id_hex,
            accepted_roots_json,
            self_tags_json,
            now,
            requester_hex,
            action,
            chain_json,
            revoked_json,
            parse_chain,
            authorize,
            Ok(()),
        ),
        !is_verified(
            self_id_hex,
            accepted_roots_json,
            self_tags_json,
            now,
            requester_hex,
            action,
            chain_json,
            revoked_json,
            parse_chain,
            authorize,
            Ok(false),
        ),
        forall|text: String| #[trigger]
            is_verified(
                self_id_hex,
                accepted_roots_json,
                self_tags_json,
                now,
                requester_hex,
                action,
                chain_json,
                revoked_json,
                parse_chain,
                authorize,
                Err(text),
            ) ==> exists|error: VaultError| #[trigger]
                is_checked(
                    self_id_hex,
                    accepted_roots_json,
                    self_tags_json,
                    now,
                    requester_hex,
                    action,
                    chain_json,
                    revoked_json,
                    parse_chain,
                    authorize,
                    Err(error),
                ) && text@ == error.message_text(),
        forall|error: VaultError, text: String|
            #![trigger is_checked(
                self_id_hex,
                accepted_roots_json,
                self_tags_json,
                now,
                requester_hex,
                action,
                chain_json,
                revoked_json,
                parse_chain,
                authorize,
                Err(error),
            ), text@]
            is_checked(
                self_id_hex,
                accepted_roots_json,
                self_tags_json,
                now,
                requester_hex,
                action,
                chain_json,
                revoked_json,
                parse_chain,
                authorize,
                Err(error),
            ) && text@ == error.message_text() ==> is_verified(
                self_id_hex,
                accepted_roots_json,
                self_tags_json,
                now,
                requester_hex,
                action,
                chain_json,
                revoked_json,
                parse_chain,
                authorize,
                Err(text),
            ),
{
}

/// Whether two verdicts are the same: both accept, or both deny for the same reason.
pub open spec fn same_verdict(a: Result<(), String>, b: Result<(), String>) -> bool {
    match (a, b) {
        (Ok(_), Ok(_)) => true,
        (Err(a), Err(b)) => a@ == b@,
        _ => false,
    }
}

/// Whether two checks came out alike: both succeeded, or both failed with the same texts.
pub open spec fn same_outcome(a: Result<(), VaultError>, b: Result<(), VaultError>) -> bool {
    match (a, b) {
        (Ok(_), Ok(_)) => true,
        (Err(a), Err(b)) => a.message_text() == b.message_text() && a.cause_text()
            == b.cause_text(),
        _ => false,
    }
}

/// Whether `parse_chain` reads a text alike each time.
pub open spec fn reads_alike<C, P>(parse_chain: P) -> bool where
    P: FnOnce(&str) -> Result<Vec<C>, String>,
 {
    forall|text: &str, a: Result<Vec<C>, String>, b: Result<Vec<C>, String>| #[trigger]
        parse_chain.ensures((text,), a) && #[trigger] parse_chain.ensures((text,), b) ==> match (
            a,
            b,
        ) {
            (Ok(a), Ok(b)) => a@ == b@,
            (Err(a), Err(b)) => a@ == b@,
            _ => false,
        }
}

/// Whether `authorize` judges a request and a chain alike each time.
pub open spec fn judges_alike<C, A>(authorize: A) -> bool where
    A: FnOnce(&AuthorizeRequest, &Vec<C>) -> Result<(), String>,
 {
    forall|
        a: AuthorizeRequest,
        a_links: Vec<C>,
        a_verdict: Result<(), String>,
        b: AuthorizeRequest,
        b_links: Vec<C>,
        b_verdict: Result<(), String>,
    |
        #[trigger] authorize.ensures((&a, &a_links), a_verdict) && #[trigger] authorize.ensures(
            (&b, &b_links),
            b_verdict,
        ) && a@ == b@ && a_links@ == b_links@ ==> same_verdict(a_verdict, b_verdict)
}

/// Two checks on the same inputs come out alike, whatever was checked between them: the
/// revoked capabilities of a check count in that check alone.
pub proof fn equal_checks_come_out_alike<C, P, A>(
    self_id_hex: &str,
    accepted_roots_json: &str,
    self_tags_json: &str,
    now: u64,
    requester_hex: &str,
    action: &str,
    chain_json: &str,
    revoked_json: &str,
    parse_chain: P,
    authorize: A,
    first: Result<(), VaultError>,
    second: Result<(), VaultError>,
) where
    P: FnOnce(&str) -> Result<Vec<C>, String>,
    A: FnOnce(&AuthorizeRequest, &Vec<C>) -> Result<(), String>,

    requires
        reads_alike(parse_chain),
        judges_alike(authorize),
        is_checked(
            self_id_hex,
            accepted_roots_json,
            self_tags_json,
            now,
            requester_hex,
            action,
            chain_json,
            revoked_json,
            parse_chain,
            authorize,
            first,
        ),
        is_checked(
            self_id_hex,
            accepted_roots_json,
            self_tags_json,
            now,
            requester_hex,
            action,
            chain_json,
            revoked_json,
            parse_chain,
            authorize,
            second,
        ),
    ensures
        same_outcome(first, second),
{
    lemma_checks_agree(
        self_id_hex,
        accepted_roots_json,
        self_tags_json,
        now,
        requester_hex,
        action,
        chain_json,
        revoked_json,
        revoked_json,
        parse_chain,
        authorize,
        first,
        second,
    );
}

/// `verify` gives `true` exactly if `verify_chain` succeeds on the same inputs, and
/// otherwise throws the text of the error that `verify_chain` reports.
pub proof fn verify_follows_verify_chain<C, P, A>(
    self_id_hex: &str,
    accepted_roots_json: &str,
    self_tags_json: &str,
    now: u64,
    requester_hex: &str,
    action: &str,
    chain_json: &str,
    revoked_json: &str,
    parse_chain: P,
    authorize: A,
    checked: Result<(), VaultError>,
    verified: Result<bool, String>,
) where
    P: FnOnce(&str) -> Result<Vec<C>, String>,
    A: FnOnce(&AuthorizeRequest, &Vec<C>) -> Result<(), String>,

    requires
        reads_alike(parse_chain),
        judges_alike(authorize),
        is_checked(
            self_id_hex,
            accepted_roots_json,
            self_tags_json,
            now,
            requester_hex,
            action,
            chain_json,
            revoked_json,
            parse_chain,
            authorize,
            checked,
        ),
        is_verified(
            self_id_hex,
            accepted_roots_json,
            self_tags_json,
            now,
            requester_hex,
            action,
            chain_json,
            revoked_json,
            parse_chain,
            authorize,
            verified,
        ),
    ensures
        verified == Ok::<bool, String>(true) <==> checked is Ok,
        verified is Err <==> checked is Err,
        checked matches Err(error) ==> (verified matches Err(text) && text@
            == error.message_text()),
{
    let other = choose|other: Result<(), VaultError>| #[trigger]
        is_checked(
            self_id_hex,
            accepted_roots_json,
            self_tags_json,
            now,
            requester_hex,
            action,
            chain_json,
            revoked_json,
            parse_chain,
            authorize,
            other,
        ) && match other {
            Ok(()) => verified == Ok::<bool, String>(true),
            Err(error) => verified matches Err(text) && text@ == error.message_text(),
        };
    equal_checks_come_out_alike(
        self_id_hex,
        accepted_roots_json,
        self_tags_json,
        now,
        requester_hex,
        action,
        chain_json,
        revoked_json,
        parse_chain,
        authorize,
        checked,
        other,
    );
}

/// Whether `authorize` denies every chain that holds a revoked link, where `link` is the
/// issuer and the nonce of a link.
pub open spec fn denies_revoked_links<C, A>(
    link: spec_fn(C) -> (Seq<u8>, u64),
    authorize: A,
) -> bool where A: FnOnce(&AuthorizeRequest, &Vec<C>) -> Result<(), String> {
    forall|request: AuthorizeRequest, links: Vec<C>, verdict: Result<(), String>, k: int|
        #![trigger authorize.ensures((&request, &links), verdict), links@[k]]
        authorize.ensures((&request, &links), verdict) && 0 <= k < links@.len()
            && request@.revoked.contains(link(links@[k])) ==> verdict is Err
}

/// With an authorizer that denies every chain with a revoked link, to list the issuer
/// and the nonce of any one link as revoked denies the chain.
pub proof fn a_revoked_link_denies_the_chain<C, P, A>(
    link: spec_fn(C) -> (Seq<u8>, u64),
    issuer: Seq<u8>,
    j: int,
    self_id_hex: &str,
    accepted_roots_json: &str,
    self_tags_json: &str,
    now: u64,
    requester_hex: &str,
    action: &str,
    chain_json: &str,
    revoked_json: &str,
    parse_chain: P,
    authorize: A,
    result: Result<(), VaultError>,
) where
    P: FnOnce(&str) -> Result<Vec<C>, String>,
    A: FnOnce(&AuthorizeRequest, &Vec<C>) -> Result<(), String>,

    requires
        denies_revoked_links(link, authorize),
        parsed_pairs(revoked_json@) is Some,
        0 <= j < parsed_pairs(revoked_json@)->0.len(),
        node_id_of(parsed_pairs(revoked_json@)->0[j].0) == Ok::<Seq<u8>, NodeIdFault>(issuer),
        forall|links: Vec<C>| #[trigger]
            parse_chain.ensures((chain_json,), Ok(links)) ==> exists|k: int|
                0 <= k < links@.len() && link(#[trigger] links@[k]) == (
                    issuer,
                    parsed_pairs(revoked_json@)->0[j].1,
                ),
        is_checked(
            self_id_hex,
            accepted_roots_json,
            self_tags_json,
            now,
            requester_hex,
            action,
            chain_json,
            revoked_json,
            parse_chain,
            authorize,
            result,
        ),
    ensures
        result is Err,
{
    let listed = parsed_pairs(revoked_json@)->0;
    let hexes = listed.map_values(|pair: (Seq<char>, u64)| pair.0);
    if result is Ok {
        only_the_authorizer_authorizes(
            self_id_hex,
            accepted_roots_json,
            self_tags_json,
            now,
            requester_hex,
            action,
            chain_json,
            revoked_json,
            parse_chain,
            authorize,
            result,
        );
        let (links, request) = choose|links: Vec<C>, request: AuthorizeRequest| #[trigger]
            authorize.ensures((&request, &links), Ok(())) && parse_chain.ensures(
                (chain_json,),
                Ok(links),
            ) && is_request(
                request@,
                self_id_hex@,
                accepted_roots_json@,
                self_tags_json@,
                now,
                requester_hex@,
                action@,
                revoked_json@,
            );
        let k = choose|k: int|
            0 <= k < links@.len() && link(#[trigger] links@[k]) == (issuer, listed[j].1);
        lemma_id_at(hexes, j);
        assert(request@.revoked == revoked_of(listed)->Ok_0);
        assert(request@.revoked[j] == link(links@[k]));
    }
}

/// Whether two requests are the same but for what is revoked.
pub open spec fn same_but_for_revoked(a: RequestView, b: RequestView) -> bool {
    &&& a.self_id == b.self_id
    &&& a.accepted_roots == b.accepted_roots
    &&& a.self_tags == b.self_tags
    &&& a.now == b.now
    &&& a.requester == b.requester
    &&& a.action == b.action
}

/// Whether the same links are revoked by two requests, where `link` is the issuer and
/// the nonce of a link.
pub open spec fn same_links_revoked<C>(
    link: spec_fn(C) -> (Seq<u8>, u64),
    links: Seq<C>,
    a: RequestView,
    b: RequestView,
) -> bool {
    forall|k: int|
        0 <= k < links.len() ==> a.revoked.contains(link(#[trigger] links[k]))
            == b.revoked.contains(link(links[k]))
}

/// Whether `authorize` asks of the revoked capabilities only whether links of the chain
/// are among them, and otherwise judges alike each time.
pub open spec fn asks_only_of_links<C, A>(
    link: spec_fn(C) -> (Seq<u8>, u64),
    authorize: A,
) -> bool where A: FnOnce(&AuthorizeRequest, &Vec<C>) -> Result<(), String> {
    forall|
        a: AuthorizeRequest,
        a_links: Vec<C>,
        a_verdict: Result<(), String>,
        b: AuthorizeRequest,
        b_links: Vec<C>,
        b_verdict: Result<(), String>,
    |
        #[trigger] authorize.ensures((&a, &a_links), a_verdict) && #[trigger] authorize.ensures(
            (&b, &b_links),
            b_verdict,
        ) && same_but_for_revoked(a@, b@) && a_links@ == b_links@ && same_links_revoked(
            link,
            a_links@,
            a@,
            b@,
        ) ==> same_verdict(a_verdict, b_verdict)
}

/// With an authorizer that asks only whether links of the chain are revoked, revoked
/// pairs of which none is both the issuer and the nonce of one link change nothing: the
/// check comes out as with an empty list.
pub proof fn a_revocation_that_hits_no_link_changes_nothing<C, P, A>(
    link: spec_fn(C) -> (Seq<u8>, u64),
    self_id_hex: &str,
    accepted_roots_json: &str,
    self_tags_json: &str,
    now: u64,
    requester_hex: &str,
    action: &str,
    chain_json: &str,
    revoked_json: &str,
    none_json: &str,
    parse_chain: P,
    authorize: A,
    result: Result<(), VaultError>,
    without: Result<(), VaultError>,
) where
    P: FnOnce(&str) -> Result<Vec<C>, String>,
    A: FnOnce(&AuthorizeRequest, &Vec<C>) -> Result<(), String>,

    requires
        reads_alike(parse_chain),
        asks_only_of_links(link, authorize),
        revoked_from(revoked_json@) is Ok,
        parsed_pairs(none_json@) == Some(Seq::<(Seq<char>, u64)>::empty()),
        forall|links: Vec<C>, k: int|
            #![trigger parse_chain.ensures((chain_json,), Ok(links)), links@[k]]
            parse_chain.ensures((chain_json,), Ok(links)) && 0 <= k < links@.len()
                ==> !revoked_from(revoked_json@)->Ok_0.contains(link(links@[k])),
        is_checked(
            self_id_hex,
            accepted_roots_json,
            self_tags_json,
            now,
            requester_hex,
            action,
            chain_json,
            revoked_json,
            parse_chain,
            authorize,
            result,
        ),
        is_checked(
            self_id_hex,
            accepted_roots_json,
            self_tags_json,
            now,
            requester_hex,
            action,
            chain_json,
            none_json,
            parse_chain,
            authorize,
            without,
        ),
    ensures
        same_outcome(result, without),
{
    let none = Seq::<(Seq<char>, u64)>::empty();
    assert(none.map_values(|pair: (Seq<char>, u64)| pair.0) == Seq::<Seq<char>>::empty());
    assert(revoked_of(none)->Ok_0 == Seq::<(Seq<u8>, u64)>::empty());
    lemma_checks_agree(
        self_id_hex,
        accepted_roots_json,
        self_tags_json,
        now,
        requester_hex,
        action,
        chain_json,
        revoked_json,
        none_json,
        parse_chain,
        authorize,
        result,
        without,
    );
}

/// Two checks that differ at most in what is revoked come out alike, if both lists can be
/// read or fail alike, and the authorizer judges both requests alike.
proof fn lemma_checks_agree<C, P, A>(
    self_id_hex: &str,
    accepted_roots_json: &str,
    self_tags_json: &str,
    now: u64,
    requester_hex: &str,
    action: &str,
    chain_json: &str,
    a_json: &str,
    b_json: &str,
    parse_chain: P,
    authorize: A,
    a: Result<(), VaultError>,
    b: Result<(), VaultError>,
) where
    P: FnOnce(&str) -> Result<Vec<C>, String>,
    A: FnOnce(&AuthorizeRequest, &Vec<C>) -> Result<(), String>,

    requires
        reads_alike(parse_chain),
        is_checked(
            self_id_hex,
            accepted_roots_json,
            self_tags_json,
            now,
            requester_hex,
            action,
            chain_json,
            a_json,
            parse_chain,
            authorize,
            a,
        ),
        is_checked(
            self_id_hex,
            accepted_roots_json,
            self_tags_json,
            now,
            requester_hex,
            action,
            chain_json,
            b_json,
            parse_chain,
            authorize,
            b,
        ),
        revoked_from(a_json@) is Ok <==> revoked_from(b_json@) is Ok,
        revoked_from(a_json@) is Err ==> revoked_from(a_json@) == revoked_from(b_json@),
        forall|
            a_request: AuthorizeRequest,
            a_links: Vec<C>,
            a_verdict: Result<(), String>,
            b_request: AuthorizeRequest,
            b_links: Vec<C>,
            b_verdict: Result<(), String>,
        |
            #[trigger] authorize.ensures((&a_request, &a_links), a_verdict)
                && #[trigger] authorize.ensures((&b_request, &b_links), b_verdict)
                && parse_chain.ensures((chain_json,), Ok(a_links)) && a_links@ == b_links@
                && is_request(
                    a_request@,
                    self_id_hex@,
                    accepted_roots_json@,
                    self_tags_json@,
                    now,
                    requester_hex@,
                    action@,
                    a_json@,
                ) && is_request(
                    b_request@,
                    self_id_hex@,
                    accepted_roots_json@,
                    self_tags_json@,
                    now,
                    requester_hex@,
                    action@,
                    b_json@,
                ) ==> same_verdict(a_verdict, b_verdict),
    ensures
        same_outcome(a, b),
{
}

/// Each node id that is read is the one that the text at its place writes.
proof fn lemma_id_at(hexes: Seq<Seq<char>>, j: int)
    requires
        0 <= j < hexes.len(),
        node_ids_of(hexes) is Ok,
    ensures
        node_ids_of(hexes)->Ok_0.len() == hexes.len(),
        node_id_of(hexes[j]) == Ok::<Seq<u8>, NodeIdFault>(node_ids_of(hexes)->Ok_0[j]),
    decreases hexes.len(),
{
    let shorter = hexes.drop_last();
    if j < shorter.len() {
        lemma_id_at(shorter, j);
    } else if shorter.len() > 0 {
        lemma_id_at(shorter, 0);
    }
}

} // verus!
