//! Secrets (tokens and the TikTok client secret) kept in the operating
//! system's credential store, through the `keyring` crate.

use vstd::prelude::*;

use crate::text::owned;

verus! {

/// The credential store entry of one account.
#[verifier::external_type_specification]
#[verifier::external_body]
pub struct ExKeyringEntry(keyring::Entry);

/// How a call into the credential store failed.
#[derive(Debug, Clone, Copy, PartialEq, Eq, Structural)]
pub enum StoreFailure {
    /// The store holds no credential for the entry.
    NoEntry,
    /// Any other failure of the store.
    Unavailable,
}

/// An entry of the credential store, with the service and account it was
/// opened for.
pub struct StoreEntry {
    service: String,
    account: String,
    inner: keyring::Entry,
}

/// A request made of the credential store.
pub enum StoreOp {
    /// Store a value under an account.
    Put(Seq<char>, Seq<char>),
    /// Remove the value of an account.
    Remove(Seq<char>),
    /// Look up the value of an account.
    Get(Seq<char>),
}

/// One call into the credential store: the service and the request that
/// were handed to it, and its answer (for a lookup, the value found; for a
/// write or a removal, an empty text on success).
pub struct StoreCall {
    pub service: Seq<char>,
    pub op: StoreOp,
    pub answer: Result<Seq<char>, StoreFailure>,
}

/// The record of the calls that this library has made into the credential
/// store, in order, with their answers. It exists only for the proofs.
pub struct Vault {
    pub calls: Ghost<Seq<StoreCall>>,
}

impl Vault {
    /// A vault with nothing recorded yet.
    pub fn new() -> (v: Vault)
        ensures
            v.calls@ == Seq::<StoreCall>::empty(),
    {
        Vault { calls: Ghost(Seq::empty()) }
    }
}

pub open spec fn unit_answer(r: Result<(), StoreFailure>) -> Result<Seq<char>, StoreFailure> {
    match r {
        Ok(()) => Ok(Seq::empty()),
        Err(f) => Err(f),
    }
}

pub open spec fn text_answer(r: Result<String, StoreFailure>) -> Result<Seq<char>, StoreFailure> {
    match r {
        Ok(v) => Ok(v@),
        Err(f) => Err(f),
    }
}

/// Calls `keyring::Entry::new` for `service` and `account`. Whether the
/// platform's store can open it is not claimed; an entry that is returned
/// was opened for the given service and account.
#[verifier::external_body]
fn open_entry(service: &str, account: &str) -> (r: Result<StoreEntry, StoreFailure>)
    ensures
        r matches Ok(e) ==> e.service@ == service@ && e.account@ == account@,
{
    match keyring::Entry::new(service, account) {
        Ok(inner) => Ok(StoreEntry { service: service.to_string(), account: account.to_string(), inner }),
        Err(keyring::Error::NoEntry) => Err(StoreFailure::NoEntry),
        Err(_) => Err(StoreFailure::Unavailable),
    }
}

/// Calls `keyring::Entry::set_password` with `password`. What the store
/// answers is not claimed; the call and its answer are recorded in `vault`.
#[verifier::external_body]
#[allow(unused_variables)]
fn entry_set_password(vault: &mut Vault, entry: &StoreEntry, password: &str) -> (r: Result<(), StoreFailure>)
    ensures
        final(vault).calls@ == old(vault).calls@.push(
            StoreCall { service: entry.service@, op: StoreOp::Put(entry.account@, password@), answer: unit_answer(r) },
        ),
{
    entry.inner.set_password(password).map_err(|e| match e {
        keyring::Error::NoEntry => StoreFailure::NoEntry,
        _ => StoreFailure::Unavailable,
    })
}

/// Calls `keyring::Entry::get_password`. What the store answers is not
/// claimed; the call and its answer are recorded in `vault`.
#[verifier::external_body]
#[allow(unused_variables)]
fn entry_get_password(vault: &mut Vault, entry: &StoreEntry) -> (r: Result<String, StoreFailure>)
    ensures
        final(vault).calls@ == old(vault).calls@.push(
            StoreCall { service: entry.service@, op: StoreOp::Get(entry.account@), answer: text_answer(r) },
        ),
{
    entry.inner.get_password().map_err(|e| match e {
        keyring::Error::NoEntry => StoreFailure::NoEntry,
        _ => StoreFailure::Unavailable,
    })
}

/// Calls `keyring::Entry::delete_credential`. What the store answers is
/// not claimed; the call and its answer are recorded in `vault`.
#[verifier::external_body]
#[allow(unused_variables)]
fn entry_delete_credential(vault: &mut Vault, entry: &StoreEntry) -> (r: Result<(), StoreFailure>)
    ensures
        final(vault).calls@ == old(vault).calls@.push(
            StoreCall { service: entry.service@, op: StoreOp::Remove(entry.account@), answer: unit_answer(r) },
        ),
{
    entry.inner.delete_credential().map_err(|e| match e {
        keyring::Error::NoEntry => StoreFailure::NoEntry,
        _ => StoreFailure::Unavailable,
    })
}

/// The service name under which all secrets are kept.
pub const SERVICE: &'static str = "mediahub";

pub open spec fn store_unavailable_msg() -> Seq<char> {
    "Sicherer Speicher nicht verfügbar."@
}

fn unavailable() -> (r: String)
    ensures
        r@ == store_unavailable_msg(),
{
    owned("Sicherer Speicher nicht verfügbar.")
}

/// The service name, as a text.
pub open spec fn service_name() -> Seq<char> {
    "mediahub"@
}

/// The entry of `account` under the service name.
fn entry(account: &str) -> (r: Result<StoreEntry, String>)
    ensures
        r matches Ok(e) ==> e.service@ == service_name() && e.account@ == account@,
        r matches Err(m) ==> m@ == store_unavailable_msg(),
{
    match open_entry(SERVICE, account) {
        Ok(e) => Ok(e),
        Err(_) => Err(unavailable()),
    }
}

/// What a lookup in the store means: a found secret, no secret, or an
/// unavailable store.
pub open spec fn lookup_meaning(r: Result<Seq<char>, StoreFailure>) -> Result<Option<Seq<char>>, Seq<char>> {
    match r {
        Ok(v) => Ok(Some(v)),
        Err(StoreFailure::NoEntry) => Ok(None),
        Err(StoreFailure::Unavailable) => Err(store_unavailable_msg()),
    }
}

pub open spec fn opt_secret_result_view(r: Result<Option<String>, String>) -> Result<Option<Seq<char>>, Seq<char>> {
    match r {
        Ok(Some(v)) => Ok(Some(v@)),
        Ok(None) => Ok(None),
        Err(e) => Err(e@),
    }
}

/// The result of a lookup, as `get_secret` reports it.
pub fn secret_from_lookup(r: Result<String, StoreFailure>) -> (out: Result<Option<String>, String>)
    ensures
        opt_secret_result_view(out) == lookup_meaning(
            match r {
                Ok(v) => Ok(v@),
                Err(f) => Err(f),
            },
        ),
{
    match r {
        Ok(value) => Ok(Some(value)),
        Err(StoreFailure::NoEntry) => Ok(None),
        Err(StoreFailure::Unavailable) => Err(unavailable()),
    }
}

/// The result of a deletion: deleting what is not there succeeds.
pub fn deletion_outcome(r: Result<(), StoreFailure>) -> (out: Result<(), String>)
    ensures
        out is Ok <==> (r is Ok || r == Err::<(), StoreFailure>(StoreFailure::NoEntry)),
        out matches Err(e) ==> e@ == store_unavailable_msg(),
{
    match r {
        Ok(()) => Ok(()),
        Err(StoreFailure::NoEntry) => Ok(()),
        Err(StoreFailure::Unavailable) => Err(unavailable()),
    }
}

/// The result of a write: any failure of the store reports it as
/// unavailable.
pub fn write_outcome(r: Result<(), StoreFailure>) -> (out: Result<(), String>)
    ensures
        out is Ok <==> r is Ok,
        out matches Err(e) ==> e@ == store_unavailable_msg(),
{
    match r {
        Ok(()) => Ok(()),
        Err(_) => Err(unavailable()),
    }
}

/// Whether a lookup found a secret; a failed lookup counts as none.
pub fn found_secret(lookup: &Result<Option<String>, String>) -> (r: bool)
    ensures
        r <==> (*lookup matches Ok(Some(_))),
{
    match lookup {
        Ok(Some(_)) => true,
        _ => false,
    }
}

/// Whether `c` is the request `op` made under this library's service.
pub open spec fn is_call(c: StoreCall, op: StoreOp) -> bool {
    c.service == service_name() && c.op == op
}

/// The calls that were made after `before`, as `after` records them.
pub open spec fn calls_since(before: Seq<StoreCall>, after: Seq<StoreCall>) -> Seq<StoreCall> {
    after.skip(before.len() as int)
}

/// `after` records what `before` did, and possibly more calls.
pub open spec fn extends(before: Seq<StoreCall>, after: Seq<StoreCall>) -> bool {
    before.len() <= after.len() && after.subrange(0, before.len() as int) == before
}

/// A lookup of `account` as the first calls of `log` show it: the meaning
/// of the store's answer, and one call; where the log does not begin with
/// that lookup (the entry could not be opened), an unavailable store and no
/// call.
pub open spec fn run_read(log: Seq<StoreCall>, account: Seq<char>) -> (Result<Option<Seq<char>>, Seq<char>>, nat) {
    if log.len() > 0 && is_call(log[0], StoreOp::Get(account)) {
        (lookup_meaning(log[0].answer), 1)
    } else {
        (Err(store_unavailable_msg()), 0)
    }
}

/// What the store's answer to a write or a removal means: removing what is
/// not there succeeds, any other failure is an unavailable store.
pub open spec fn update_meaning(op: StoreOp, answer: Result<Seq<char>, StoreFailure>) -> Result<(), Seq<char>> {
    match answer {
        Ok(_) => Ok(()),
        Err(StoreFailure::NoEntry) => if op is Remove {
            Ok(())
        } else {
            Err(store_unavailable_msg())
        },
        Err(StoreFailure::Unavailable) => Err(store_unavailable_msg()),
    }
}

/// Writes and removals made in the order of `plan`, stopping at the first
/// failure, as the first calls of `log` show them: the result, and how many
/// calls were made. A request whose entry could not be opened leaves no call.
pub open spec fn run_updates(log: Seq<StoreCall>, plan: Seq<StoreOp>) -> (Result<(), Seq<char>>, nat)
    decreases plan.len(),
{
    if plan.len() == 0 {
        (Ok(()), 0)
    } else if !(log.len() > 0 && is_call(log[0], plan[0])) {
        (Err(store_unavailable_msg()), 0)
    } else {
        match update_meaning(plan[0], log[0].answer) {
            Err(e) => (Err(e), 1),
            Ok(()) => {
                let rest = run_updates(log.drop_first(), plan.drop_first());
                (rest.0, rest.1 + 1)
            },
        }
    }
}

pub open spec fn unit_view(r: Result<(), String>) -> Result<(), Seq<char>> {
    match r {
        Ok(()) => Ok(()),
        Err(e) => Err(e@),
    }
}

/// Stores `value` as the secret of `account`: one write under the service
/// name, whose answer gives the result. Whether the store accepts it is not
/// claimed.
pub fn set_secret(vault: &mut Vault, account: &str, value: &str) -> (r: Result<(), String>)
    ensures
        extends(old(vault).calls@, final(vault).calls@),
        run_updates(calls_since(old(vault).calls@, final(vault).calls@), seq![StoreOp::Put(account@, value@)])
            == (unit_view(r), calls_since(old(vault).calls@, final(vault).calls@).len()),
{
    proof {
        reveal_with_fuel(run_updates, 2);
    }
    let ghost before = vault.calls@;
    let e = match entry(account) {
        Ok(e) => e,
        Err(m) => {
            assert(calls_since(before, vault.calls@) =~= Seq::<StoreCall>::empty());
            assert(before.subrange(0, before.len() as int) =~= before);
            return Err(m);
        },
    };
    let r = write_outcome(entry_set_password(vault, &e, value));
    assert(calls_since(before, vault.calls@) =~= seq![vault.calls@.last()]);
    assert(vault.calls@.subrange(0, before.len() as int) =~= before);
    assert(calls_since(before, vault.calls@).drop_first() =~= Seq::<StoreCall>::empty());
    assert(seq![StoreOp::Put(account@, value@)].drop_first() =~= Seq::<StoreOp>::empty());
    r
}

/// The secret of `account`, `None` when there is none: one lookup under the
/// service name, whose answer gives the result. What is found is not
/// claimed.
pub fn get_secret(vault: &mut Vault, account: &str) -> (r: Result<Option<String>, String>)
    ensures
        extends(old(vault).calls@, final(vault).calls@),
        run_read(calls_since(old(vault).calls@, final(vault).calls@), account@)
            == (opt_secret_result_view(r), calls_since(old(vault).calls@, final(vault).calls@).len()),
{
    let ghost before = vault.calls@;
    let e = match entry(account) {
        Ok(e) => e,
        Err(m) => {
            assert(calls_since(before, vault.calls@) =~= Seq::<StoreCall>::empty());
            assert(before.subrange(0, before.len() as int) =~= before);
            return Err(m);
        },
    };
    let found = entry_get_password(vault, &e);
    assert(calls_since(before, vault.calls@) =~= seq![vault.calls@.last()]);
    assert(vault.calls@.subrange(0, before.len() as int) =~= before);
    secret_from_lookup(found)
}

/// Removes the secret of `account`: one removal under the service name,
/// whose answer gives the result; removing a missing secret succeeds.
/// Whether the store succeeds is not claimed.
pub fn delete_secret(vault: &mut Vault, account: &str) -> (r: Result<(), String>)
    ensures
        extends(old(vault).calls@, final(vault).calls@),
        run_updates(calls_since(old(vault).calls@, final(vault).calls@), seq![StoreOp::Remove(account@)])
            == (unit_view(r), calls_since(old(vault).calls@, final(vault).calls@).len()),
{
    proof {
        reveal_with_fuel(run_updates, 2);
    }
    let ghost before = vault.calls@;
    let e = match entry(account) {
        Ok(e) => e,
        Err(m) => {
            assert(calls_since(before, vault.calls@) =~= Seq::<StoreCall>::empty());
            assert(before.subrange(0, before.len() as int) =~= before);
            return Err(m);
        },
    };
    let r = deletion_outcome(entry_delete_credential(vault, &e));
    assert(calls_since(before, vault.calls@) =~= seq![vault.calls@.last()]);
    assert(vault.calls@.subrange(0, before.len() as int) =~= before);
    assert(calls_since(before, vault.calls@).drop_first() =~= Seq::<StoreCall>::empty());
    assert(seq![StoreOp::Remove(account@)].drop_first() =~= Seq::<StoreOp>::empty());
    r
}

/// Whether a secret is stored for `account`: one lookup, as `get_secret`
/// makes it, that found a value.
pub fn has_secret(vault: &mut Vault, account: &str) -> (r: bool)
    ensures
        extends(old(vault).calls@, final(vault).calls@),
        run_read(calls_since(old(vault).calls@, final(vault).calls@), account@).1
            == calls_since(old(vault).calls@, final(vault).calls@).len(),
        r <==> (run_read(calls_since(old(vault).calls@, final(vault).calls@), account@).0 matches Ok(Some(_))),
{
    let l = get_secret(vault, account);
    found_secret(&l)
}

/// A write or a removal to be made in the store.
#[derive(Debug, Clone, PartialEq, Eq)]
pub enum Update {
    /// Store the value (second) under the account (first).
    Put(String, String),
    /// Remove the value of the account.
    Remove(String),
}

pub open spec fn update_op(u: Update) -> StoreOp {
    match u {
        Update::Put(a, v) => StoreOp::Put(a@, v@),
        Update::Remove(a) => StoreOp::Remove(a@),
    }
}

pub open spec fn updates_ops(us: Seq<Update>) -> Seq<StoreOp> {
    us.map_values(|u: Update| update_op(u))
}

/// Makes one write or removal.
pub fn apply_update(vault: &mut Vault, u: &Update) -> (r: Result<(), String>)
    ensures
        extends(old(vault).calls@, final(vault).calls@),
        run_updates(calls_since(old(vault).calls@, final(vault).calls@), seq![update_op(*u)])
            == (unit_view(r), calls_since(old(vault).calls@, final(vault).calls@).len()),
{
    match u {
        Update::Put(a, v) => set_secret(vault, a.as_str(), v.as_str()),
        Update::Remove(a) => delete_secret(vault, a.as_str()),
    }
}

/// Makes the writes and removals of `plan` in order, stopping at the first
/// failure.
pub fn apply_updates(vault: &mut Vault, plan: &Vec<Update>) -> (r: Result<(), String>)
    ensures
        extends(old(vault).calls@, final(vault).calls@),
        run_updates(calls_since(old(vault).calls@, final(vault).calls@), updates_ops(plan@))
            == (unit_view(r), calls_since(old(vault).calls@, final(vault).calls@).len()),
{
    let ghost l0 = vault.calls@;
    proof {
        assert(calls_since(l0, l0) =~= Seq::<StoreCall>::empty());
        assert(l0.subrange(0, l0.len() as int) =~= l0);
        assert(updates_ops(plan@).take(0) =~= Seq::<StoreOp>::empty());
    }
    let mut i: usize = 0;
    while i < plan.len()
        invariant
            i <= plan.len(),
            l0 == old(vault).calls@,
            extends(l0, vault.calls@),
            run_updates(calls_since(l0, vault.calls@), updates_ops(plan@).take(i as int))
                == (Ok::<(), Seq<char>>(()), calls_since(l0, vault.calls@).len()),
        decreases plan.len() - i,
    {
        let ghost l1 = vault.calls@;
        let r = apply_update(vault, &plan[i]);
        proof {
            lemma_calls_concat(l0, l1, vault.calls@);
            assert(updates_ops(plan@)[i as int] == update_op(plan@[i as int]));
            lemma_updates_step(calls_since(l0, l1), calls_since(l1, vault.calls@), updates_ops(plan@), i as int);
        }
        match r {
            Ok(()) => {},
            Err(e) => {
                return Err(e);
            },
        }
        i = i + 1;
    }
    assert(updates_ops(plan@).take(plan.len() as int) =~= updates_ops(plan@));
    Ok(())
}

/// Calls recorded one after another add up.
pub(crate) proof fn lemma_calls_concat(l0: Seq<StoreCall>, l1: Seq<StoreCall>, l2: Seq<StoreCall>)
    requires
        extends(l0, l1),
        extends(l1, l2),
    ensures
        extends(l0, l2),
        calls_since(l0, l2) == calls_since(l0, l1) + calls_since(l1, l2),
{
    assert forall|k: int| 0 <= k < l0.len() implies l2[k] == l0[k] by {
        assert(l2.subrange(0, l1.len() as int)[k] == l1[k]);
        assert(l1.subrange(0, l0.len() as int)[k] == l0[k]);
    }
    assert(l2.subrange(0, l0.len() as int) =~= l0);
    assert forall|j: int| 0 <= j < l1.len() implies #[trigger] l2[j] == l1[j] by {
        assert(l2.subrange(0, l1.len() as int)[j] == l1[j]);
    }
    assert(calls_since(l0, l2) =~= calls_since(l0, l1) + calls_since(l1, l2));
}

/// A lookup that made all its calls in `seg1` reads the same when more
/// calls follow.
pub(crate) proof fn lemma_read_then(seg1: Seq<StoreCall>, seg2: Seq<StoreCall>, account: Seq<char>)
    requires
        run_read(seg1, account).1 == seg1.len(),
    ensures
        seg1.len() == 1 ==> run_read(seg1 + seg2, account) == run_read(seg1, account),
        seg1.len() == 1 ==> (seg1 + seg2).skip(1) == seg2,
        seg1.len() == 0 ==> seg1 + seg2 == seg2,
{
    assert((seg1 + seg2).skip(seg1.len() as int) =~= seg2);
    if seg1.len() == 1 {
        assert((seg1 + seg2)[0] == seg1[0]);
    } else {
        assert(seg1 + seg2 =~= seg2);
    }
}

/// Updates that succeeded with all their calls in `seg1` read the same when
/// more calls follow.
pub(crate) proof fn lemma_updates_then(seg1: Seq<StoreCall>, seg2: Seq<StoreCall>, plan: Seq<StoreOp>)
    requires
        run_updates(seg1, plan) == (Ok::<(), Seq<char>>(()), seg1.len()),
    ensures
        run_updates(seg1 + seg2, plan) == (Ok::<(), Seq<char>>(()), seg1.len()),
        (seg1 + seg2).skip(seg1.len() as int) == seg2,
    decreases plan.len(),
{
    assert((seg1 + seg2).skip(seg1.len() as int) =~= seg2);
    if plan.len() > 0 {
        assert((seg1 + seg2)[0] == seg1[0]);
        assert((seg1 + seg2).drop_first() =~= seg1.drop_first() + seg2);
        lemma_updates_then(seg1.drop_first(), seg2, plan.drop_first());
    } else {
        assert(seg1 + seg2 =~= seg2);
    }
}

/// One more update after a successful run of the first `i` updates.
pub(crate) proof fn lemma_updates_step(seg1: Seq<StoreCall>, seg2: Seq<StoreCall>, plan: Seq<StoreOp>, i: int)
    requires
        0 <= i < plan.len(),
        run_updates(seg1, plan.take(i)) == (Ok::<(), Seq<char>>(()), seg1.len()),
        run_updates(seg2, seq![plan[i]]).1 == seg2.len(),
    ensures
        run_updates(seg2, seq![plan[i]]).0 is Ok ==> run_updates(seg1 + seg2, plan.take(i + 1))
            == (Ok::<(), Seq<char>>(()), seg1.len() + seg2.len()),
        run_updates(seg2, seq![plan[i]]).0 is Err ==> run_updates(seg1 + seg2, plan)
            == (run_updates(seg2, seq![plan[i]]).0, seg1.len() + seg2.len()),
    decreases i,
{
    reveal_with_fuel(run_updates, 2);
    if i == 0 {
        assert(seg1.len() == 0);
        assert(seg1 + seg2 =~= seg2);
        assert(plan.take(1) =~= seq![plan[0]]);
        assert(seq![plan[0]].drop_first() =~= Seq::<StoreOp>::empty());
        if seg2.len() > 0 {
            assert(seg2.drop_first() =~= Seq::<StoreCall>::empty());
        }
    } else {
        assert(plan.take(i)[0] == plan[0]);
        assert(plan.take(i).drop_first() =~= plan.drop_first().take(i - 1));
        assert(plan.take(i + 1).drop_first() =~= plan.drop_first().take(i));
        assert(plan.take(i + 1)[0] == plan[0]);
        assert(plan.drop_first()[i - 1] == plan[i]);
        assert((seg1 + seg2)[0] == seg1[0]);
        assert((seg1 + seg2).drop_first() =~= seg1.drop_first() + seg2);
        lemma_updates_step(seg1.drop_first(), seg2, plan.drop_first(), i - 1);
    }
}

/// A run of updates that succeeded made one call per request, each the
/// request itself under the service name, answered with success.
pub proof fn lemma_run_updates_ok(log: Seq<StoreCall>, plan: Seq<StoreOp>)
    requires
        run_updates(log, plan).0 is Ok,
    ensures
        run_updates(log, plan).1 == plan.len(),
        plan.len() <= log.len(),
        forall|i: int|
            0 <= i < plan.len() ==> is_call(#[trigger] log[i], plan[i]) && update_meaning(plan[i], log[i].answer) is Ok,
    decreases plan.len(),
{
    if plan.len() > 0 {
        lemma_run_updates_ok(log.drop_first(), plan.drop_first());
        assert forall|i: int| 0 <= i < plan.len() implies is_call(#[trigger] log[i], plan[i]) && update_meaning(
            plan[i],
            log[i].answer,
        ) is Ok by {
            if i > 0 {
                assert(log.drop_first()[i - 1] == log[i]);
                assert(plan.drop_first()[i - 1] == plan[i]);
            }
        }
    }
}

} // verus!
