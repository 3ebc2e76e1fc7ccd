//! The swap: the active identity goes to the stash, and the identity that
//! the stash holds for the target server becomes the active one.

use crate::servers::{
    canonical_server, endpoint_of, home_server_name, lemma_canonical_server, normalize_server,
    same_text,
};
use crate::store::{
    active_slot, config_with, endpoint_key, entry_or_empty, has_login_section, lemma_keys_differ,
    stash_with, stashed, ActiveSlot, ActiveSlotView, ConfigStore, Entries, Identity, IdentityView,
    Stash,
};
use vstd::prelude::*;

verus! {

/// Whether a switch to `target` has anything to swap: it has not when
/// `target` is the server that is active already.
pub open spec fn swap_needed(config: Entries, target: Seq<char>) -> bool {
    active_slot(config).server != canonical_server(target)
}

/// The configuration after a switch to `target`. The identity that the
/// stash holds for the target becomes the active one; a switch to the
/// active server changes nothing.
pub open spec fn config_after(config: Entries, stash: Entries, target: Seq<char>) -> Entries {
    if swap_needed(config, target) {
        let server = canonical_server(target);
        config_with(config, server, stashed(stash, server))
    } else {
        config
    }
}

/// The stash after a switch to `target`. The identity that was active is
/// put away under its server, whatever it holds; a switch to the active
/// server changes nothing.
pub open spec fn stash_after(config: Entries, stash: Entries, target: Seq<char>) -> Entries {
    if swap_needed(config, target) {
        let outgoing = active_slot(config);
        stash_with(stash, outgoing.server, outgoing.identity)
    } else {
        stash
    }
}

/// What a swap did.
#[derive(Debug)]
pub enum SwapOutcome {
    /// The target is the active server: neither store was touched.
    Unchanged,
    /// The identities changed places.
    Swapped {
        /// What was active before, now in the stash.
        outgoing: ActiveSlot,
        /// What is active now.
        incoming: Identity,
    },
}

/// Switches the two stores to `target`.
///
/// `None` is returned, and nothing changed, for a configuration that has no
/// login section. Otherwise the stores are afterwards what
/// [`config_after`] and [`stash_after`] say; on a switch to the server that
/// is active already they are the very stores that were handed in.
pub fn swap(config: &mut ConfigStore, stash: &mut Stash, target: &str) -> (r: Option<SwapOutcome>)
    ensures
        !has_login_section(old(config)@) ==> r is None && *final(config) == *old(config)
            && *final(stash) == *old(stash),
        has_login_section(old(config)@) ==> r is Some,
        r == Some(SwapOutcome::Unchanged) ==> *final(config) == *old(config) && *final(stash)
            == *old(stash),
        r is Some ==> (r->0 is Swapped <==> swap_needed(old(config)@, target@)),
        r is Some ==> final(config)@ == config_after(old(config)@, old(stash)@, target@),
        r is Some ==> final(stash)@ == stash_after(old(config)@, old(stash)@, target@),
        r matches Some(SwapOutcome::Swapped { outgoing, incoming }) ==> outgoing@ == active_slot(
            old(config)@,
        ) && incoming@ == stashed(old(stash)@, canonical_server(target@)),
{
    let current = match config.active() {
        Some(slot) => slot,
        None => {
            return None;
        },
    };
    let server = normalize_server(target);
    if same_text(current.server.as_str(), server.as_str()) {
        return Some(SwapOutcome::Unchanged);
    }
    let incoming = stash.identity(server.as_str());
    config.install(server.as_str(), &incoming);
    stash.put(current.server.as_str(), &current.identity);
    Some(SwapOutcome::Swapped { outgoing: current, incoming })
}

/// Reading back what [`config_with`] wrote gives the identity that was
/// written, under the server's canonical name.
pub proof fn lemma_active_after_install(config: Entries, server: Seq<char>, identity: IdentityView)
    ensures
        has_login_section(config_with(config, server, identity)),
        active_slot(config_with(config, server, identity)) == (ActiveSlotView {
            server: canonical_server(endpoint_of(server)),
            identity,
        }),
        entry_or_empty(config_with(config, server, identity), None, endpoint_key())
            == endpoint_of(server),
{
    lemma_keys_differ();
}

/// Reading back what [`stash_with`] wrote gives the identity that was put
/// away, and for every other server what the stash held before.
pub proof fn lemma_stashed_after_put(
    stash: Entries,
    server: Seq<char>,
    identity: IdentityView,
    other: Seq<char>,
)
    ensures
        stash_with(stash, server, identity).contains_key(Some(server)),
        stashed(stash_with(stash, server, identity), server) == identity,
        other != server ==> stashed(stash_with(stash, server, identity), other) == stashed(
            stash,
            other,
        ),
        other != server ==> (stash_with(stash, server, identity).contains_key(Some(other))
            <==> stash.contains_key(Some(other))),
{
    lemma_keys_differ();
}

/// A switch to the server that is active already leaves both stores as
/// they are, so a second such switch finds what the first one found.
pub proof fn lemma_switch_to_active_is_idle(config: Entries, stash: Entries)
    ensures
        !swap_needed(config, active_slot(config).server),
        config_after(config, stash, active_slot(config).server) == config,
        stash_after(config, stash, active_slot(config).server) == stash,
{
    lemma_canonical_server(entry_or_empty(config, None, endpoint_key()));
}

/// After a switch the target is the active server, and a second switch to
/// it changes nothing.
pub proof fn lemma_switch_is_idempotent(config: Entries, stash: Entries, target: Seq<char>)
    ensures
        active_slot(config_after(config, stash, target)).server == canonical_server(target),
        config_after(
            config_after(config, stash, target),
            stash_after(config, stash, target),
            target,
        ) == config_after(config, stash, target),
        stash_after(
            config_after(config, stash, target),
            stash_after(config, stash, target),
            target,
        ) == stash_after(config, stash, target),
{
    lemma_canonical_server(target);
    if swap_needed(config, target) {
        let server = canonical_server(target);
        lemma_active_after_install(config, server, stashed(stash, server));
    }
}

/// Switching from the active server to another and back restores the
/// identity that was active, with its server.
pub proof fn lemma_round_trip(config: Entries, stash: Entries, away: Seq<char>)
    ensures
        ({
            let origin = active_slot(config).server;
            let config_away = config_after(config, stash, away);
            let stash_away = stash_after(config, stash, away);
            active_slot(config_after(config_away, stash_away, origin)) == active_slot(config)
        }),
{
    let origin = active_slot(config);
    let there = canonical_server(away);
    let config_away = config_after(config, stash, away);
    let stash_away = stash_after(config, stash, away);
    lemma_canonical_server(away);
    lemma_canonical_server(entry_or_empty(config, None, endpoint_key()));
    if swap_needed(config, away) {
        lemma_active_after_install(config, there, stashed(stash, there));
        assert(active_slot(config_away).server == there);
        assert(swap_needed(config_away, origin.server));
        lemma_stashed_after_put(stash, origin.server, origin.identity, origin.server);
        lemma_active_after_install(config_away, origin.server, stashed(stash_away, origin.server));
    } else {
        lemma_switch_to_active_is_idle(config, stash);
    }
}

/// Switching away from a server puts its identity into the stash under
/// the server's canonical name, in place of what was kept there. An
/// identity of two empty texts is put away like any other: the entry is
/// there afterwards.
pub proof fn lemma_outgoing_is_stashed(config: Entries, stash: Entries, target: Seq<char>)
    requires
        swap_needed(config, target),
    ensures
        ({
            let outgoing = active_slot(config);
            let after = stash_after(config, stash, target);
            &&& after.contains_key(Some(outgoing.server))
            &&& stashed(after, outgoing.server) == outgoing.identity
            &&& outgoing.server.len() > 0
        }),
{
    let outgoing = active_slot(config);
    lemma_stashed_after_put(stash, outgoing.server, outgoing.identity, outgoing.server);
    lemma_canonical_server(entry_or_empty(config, None, endpoint_key()));
}

/// A switch to the home server writes an empty endpoint, and the
/// configuration then reads as the home server under its canonical name,
/// which is not empty.
pub proof fn lemma_home_is_written_empty(config: Entries, stash: Entries, target: Seq<char>)
    requires
        swap_needed(config, target),
        canonical_server(target) == home_server_name(),
    ensures
        entry_or_empty(config_after(config, stash, target), None, endpoint_key()).len() == 0,
        active_slot(config_after(config, stash, target)).server == home_server_name(),
        home_server_name().len() > 0,
{
    let server = canonical_server(target);
    lemma_canonical_server(target);
    lemma_active_after_install(config, server, stashed(stash, server));
}

/// After a swap the stash holds nothing newer for the active server than
/// the identity that is now active: what it holds under the target is that
/// identity, and the identity that left is under its own server.
pub proof fn lemma_one_identity_per_server(config: Entries, stash: Entries, target: Seq<char>)
    requires
        swap_needed(config, target),
    ensures
        ({
            let config_new = config_after(config, stash, target);
            let stash_new = stash_after(config, stash, target);
            let active = active_slot(config_new);
            &&& active.server == canonical_server(target)
            &&& stashed(stash_new, active.server) == active.identity
            &&& active.server != active_slot(config).server
        }),
{
    let server = canonical_server(target);
    let outgoing = active_slot(config);
    lemma_canonical_server(target);
    lemma_active_after_install(config, server, stashed(stash, server));
    lemma_stashed_after_put(stash, outgoing.server, outgoing.identity, server);
}

} // verus!
