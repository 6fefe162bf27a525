use crate::table::Table;
use crate::types::{AccountId, Action, Error};
use vstd::prelude::*;

verus! {

/// The counter of `(account, action)` in a nonce map: the stored value, or
/// 0 where none is stored.
pub open spec fn nonce_in(nonces: Map<(Seq<u8>, Action), u64>, account: Seq<u8>, action: Action) -> u64 {
    if nonces.contains_key((account, action)) {
        nonces[(account, action)]
    } else {
        0
    }
}

/// Replay-protection counters, one sequence per account and kind of action.
pub(crate) struct NonceLedger {
    register: Table<u64>,
    transfer: Table<u64>,
}

impl View for NonceLedger {
    type V = Map<(Seq<u8>, Action), u64>;

    closed spec fn view(&self) -> Map<(Seq<u8>, Action), u64> {
        Map::new(
            |k: (Seq<u8>, Action)|
                match k.1 {
                    Action::Register => self.register@.contains_key(k.0),
                    Action::Transfer => self.transfer@.contains_key(k.0),
                },
            |k: (Seq<u8>, Action)|
                match k.1 {
                    Action::Register => self.register@[k.0],
                    Action::Transfer => self.transfer@[k.0],
                },
        )
    }
}

impl NonceLedger {
    pub(crate) closed spec fn wf(&self) -> bool {
        self.register.wf() && self.transfer.wf()
    }

    pub(crate) fn new() -> (r: Self)
        ensures
            r.wf(),
            r@ == Map::<(Seq<u8>, Action), u64>::empty(),
    {
        let r = NonceLedger { register: Table::new(), transfer: Table::new() };
        assert(r@ =~= Map::<(Seq<u8>, Action), u64>::empty());
        r
    }

    /// The expected next nonce of `account` for `action`.
    pub(crate) fn current(&self, account: &AccountId, action: Action) -> (r: u64)
        requires
            self.wf(),
        ensures
            r == nonce_in(self@, account@, action),
    {
        let found = match action {
            Action::Register => self.register.get(&account.0),
            Action::Transfer => self.transfer.get(&account.0),
        };
        match found {
            Some(n) => *n,
            None => 0,
        }
    }

    /// Moves the counter of `account` for `action` one step on, refusing to
    /// wrap.
    pub(crate) fn advance(&mut self, account: &AccountId, action: Action) -> (r: Result<u64, Error>)
        requires
            old(self).wf(),
        ensures
            final(self).wf(),
            nonce_in(old(self)@, account@, action) == u64::MAX ==> {
                &&& r == Err::<u64, Error>(Error::NonceOverflow)
                &&& final(self)@ == old(self)@
            },
            nonce_in(old(self)@, account@, action) < u64::MAX ==> {
                &&& r == Ok::<u64, Error>((nonce_in(old(self)@, account@, action) + 1) as u64)
                &&& final(self)@ == old(self)@.insert(
                    (account@, action),
                    (nonce_in(old(self)@, account@, action) + 1) as u64,
                )
            },
    {
        let current = self.current(account, action);
        let next = match current.checked_add(1) {
            Some(n) => n,
            None => {
                return Err(Error::NonceOverflow);
            },
        };
        match action {
            Action::Register => self.register.insert(account.0, next),
            Action::Transfer => self.transfer.insert(account.0, next),
        }
        assert(self@ =~= old(self)@.insert((account@, action), next));
        Ok(next)
    }
}

} // verus!
