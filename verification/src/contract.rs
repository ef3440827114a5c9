//! The token contract: the ledger, the optional metadata and the event log,
//! composed behind the public call surface.
//!
//! The host runtime reloads one `Contract` value around every call and hands
//! in the call context (caller, attached deposit, storage cost) as plain
//! arguments; nothing else is ambient.

use vstd::prelude::*;

use crate::errors::TokenError;
use crate::events::{Event, EventV};
use crate::ledger::{
    register_effect, spec_transfer_check, spec_unregister_check,
    transfer_effect, unregister_effect, withdraw_effect, Ledger,
};
use crate::metadata::{metadata_spec_version, FtMetadata};
use crate::storage::{StorageBalance, StorageDepositOutcome};

verus! {

/// The icon of the default metadata, as a data URL.
pub const DATA_IMAGE_SVG_NEAR_ICON: &'static str = "data:image/svg+xml,%3Csvg width='373' height='373' viewBox='0 0 373 373' fill='none' xmlns='http://www.w3.org/2000/svg'%3E%3Cg filter='url(%23filter0_ii_2016_186744)'%3E%3Ccircle cx='186.432' cy='186.432' r='173.432' fill='url(%23paint0_linear_2016_186744)'/%3E%3C/g%3E%3Ccircle cx='186.432' cy='186.432' r='179.856' stroke='url(%23paint1_linear_2016_186744)' stroke-width='12.8468'/%3E%3Cpath fill-rule='evenodd' clip-rule='evenodd' d='M218.981 204.243H231.074L272.216 233.785H292.045L251.038 204.243H259.536C264.033 204.243 268.259 203.389 272.216 201.68C276.173 199.972 279.59 197.679 282.468 194.801C285.435 191.833 287.774 188.371 289.482 184.414C291.191 180.457 292.045 176.231 292.045 171.734C292.045 167.238 291.191 163.056 289.482 159.189C287.774 155.233 285.435 151.815 282.468 148.938C279.59 145.97 276.173 143.632 272.216 141.923C268.259 140.215 264.033 139.36 259.536 139.36H174.015V151.096H259.536C262.414 151.096 265.112 151.636 267.63 152.715C270.148 153.794 272.306 155.278 274.105 157.166C275.993 159.055 277.477 161.258 278.556 163.776C279.635 166.204 280.175 168.857 280.175 171.734C280.175 174.612 279.635 177.31 278.556 179.828C277.477 182.346 275.993 184.549 274.105 186.438C272.306 188.326 270.148 189.81 267.63 190.889C265.112 191.968 262.414 192.508 259.536 192.508H203.439L218.981 204.243Z' fill='white'/%3E%3C/svg%3E%0A";

/// A suspended transfer-and-call: what the host must hand back, unmodified,
/// to the resolution step once the receiver's outcome is known.  Nothing else
/// survives the suspension; the optimistic debit is already in the ledger.
pub struct PendingTransfer {
    pub sender_id: String,
    pub receiver_id: String,
    pub amount: u128,
}

/// The token contract state.
pub struct Contract {
    /// The balance ledger.
    pub token: Ledger,
    /// Optional descriptive metadata.
    pub metadata: Option<FtMetadata>,
    /// The append-only log of emitted events.
    pub events: Vec<Event>,
}

/// How much of a transferred amount the receiver reports as unused, capped at
/// the amount itself; a failed receiver call counts as everything unused.
pub open spec fn spec_unused_amount(amount: u128, outcome: Result<u128, TokenError>) -> u128 {
    match outcome {
        Ok(u) => if u < amount {
            u
        } else {
            amount
        },
        Err(_) => amount,
    }
}

/// The refund the resolution step performs: the unused amount, clamped to
/// what the receiver still holds.
pub open spec fn spec_refund_amount(
    pre: Ledger,
    receiver: Seq<char>,
    amount: u128,
    outcome: Result<u128, TokenError>,
) -> u128 {
    let unused = spec_unused_amount(amount, outcome);
    let rbal = pre.spec_balance(receiver);
    if rbal < unused {
        rbal
    } else {
        unused
    }
}

/// What the resolution step reports: the amount the receiver kept, and the
/// amount burned because the sender's account was gone when the refund came
/// due.
pub open spec fn spec_resolve_result(
    pre: Ledger,
    sender: Seq<char>,
    receiver: Seq<char>,
    amount: u128,
    outcome: Result<u128, TokenError>,
) -> (u128, u128) {
    let refund = spec_refund_amount(pre, receiver, amount, outcome);
    if refund == 0 {
        (amount, 0)
    } else if pre.spec_registered(sender) {
        ((amount - refund) as u128, 0)
    } else {
        (amount, refund)
    }
}

/// The state a fresh contract owes: the whole supply on the owner's balance,
/// the given metadata, and a single mint event.
pub open spec fn spec_fresh_contract(
    c: Contract,
    owner: Seq<char>,
    total_supply: u128,
    metadata: FtMetadata,
) -> bool {
    &&& c.wf()
    &&& c.token.spec_registered(owner)
    &&& c.token.spec_balance(owner) == total_supply
    &&& forall|b: Seq<char>| b != owner ==> !c.token.spec_registered(b)
    &&& c.token.total == total_supply
    &&& c.metadata == Some(metadata)
    &&& c.spec_events() == seq![
        EventV::Mint {
            owner_id: owner,
            amount: total_supply,
            memo: Some("Initial tokens supply is minted"@),
        },
    ]
}

/// The outcome a storage deposit owes.  An already registered account gets
/// the whole attached deposit back; otherwise the deposit must cover the
/// registration cost, and the remainder is refunded.
pub open spec fn spec_storage_deposit_check(
    pre: Contract,
    a: Seq<char>,
    attached: u128,
    storage_cost: u128,
) -> Result<StorageDepositOutcome, TokenError> {
    if pre.token.spec_registered(a) {
        Ok(
            StorageDepositOutcome {
                refund: attached,
                balance: StorageBalance { total: storage_cost, available: 0 },
            },
        )
    } else if attached < storage_cost {
        Err(TokenError::InsufficientStorageDeposit)
    } else {
        Ok(
            StorageDepositOutcome {
                refund: (attached - storage_cost) as u128,
                balance: StorageBalance { total: storage_cost, available: 0 },
            },
        )
    }
}

/// The outcome a storage withdrawal owes.  Entries are fixed-size, so the
/// available storage balance is always zero and any positive withdrawal is
/// rejected with `StorageUnavailable`.
pub open spec fn spec_storage_withdraw_check(
    pre: Contract,
    a: Seq<char>,
    amount: Option<u128>,
    storage_cost: u128,
) -> Result<StorageBalance, TokenError> {
    if !pre.token.spec_registered(a) {
        Err(TokenError::NotRegistered)
    } else if amount matches Some(x) && x > 0 {
        Err(TokenError::StorageUnavailable)
    } else {
        Ok(StorageBalance { total: storage_cost, available: 0 })
    }
}

/// The outcome an unregistration owes: on success, the registration deposit
/// comes back to the caller.
pub open spec fn spec_storage_unregister_check(
    pre: Contract,
    a: Seq<char>,
    force: bool,
    storage_cost: u128,
) -> Result<u128, TokenError> {
    match spec_unregister_check(pre.token, a, force) {
        Ok(_) => Ok(storage_cost),
        Err(e) => Err(e),
    }
}

/// What the resolution step does to the contract: nothing when there is
/// nothing to refund; a reverse transfer with a refund event while the sender
/// is still registered; otherwise a burn of the clamped refund from the
/// receiver, with a burn event.
pub open spec fn resolve_effect(
    pre: Contract,
    post: Contract,
    sender: Seq<char>,
    receiver: Seq<char>,
    amount: u128,
    outcome: Result<u128, TokenError>,
) -> bool {
    let refund = spec_refund_amount(pre.token, receiver, amount, outcome);
    &&& post.metadata == pre.metadata
    &&& if refund == 0 {
        post.token == pre.token && post.spec_events() == pre.spec_events()
    } else if pre.token.spec_registered(sender) {
        &&& if sender == receiver {
            post.token == pre.token
        } else {
            transfer_effect(pre.token, post.token, receiver, sender, refund)
        }
        &&& post.spec_events() == pre.spec_events().push(
            EventV::Transfer {
                sender_id: receiver,
                receiver_id: sender,
                amount: refund,
                memo: Some("refund"@),
            },
        )
    } else {
        &&& withdraw_effect(pre.token, post.token, receiver, refund)
        &&& post.spec_events() == pre.spec_events().push(
            EventV::Burn { owner_id: receiver, amount: refund, memo: Some("refund"@) },
        )
    }
}

impl Contract {
    /// Well-formedness: the ledger's balances sum to its total supply.
    pub open spec fn wf(self) -> bool {
        self.token.wf()
    }

    /// The emitted events, by their mathematical content, oldest first.
    pub open spec fn spec_events(self) -> Seq<EventV> {
        self.events.deep_view()
    }

    /// Initializes the contract with the given total supply owned by
    /// `owner_id` and the given metadata, and records the mint event.
    pub fn new(owner_id: String, total_supply: u128, metadata: FtMetadata) -> (r: Contract)
        requires
            metadata.spec_valid(),
        ensures
            spec_fresh_contract(r, owner_id@, total_supply, metadata),
    {
        let mut token = Ledger::new();
        token.register(&owner_id).unwrap();
        token.deposit(&owner_id, total_supply).unwrap();
        let mut events: Vec<Event> = Vec::new();
        events.push(
            Event::Mint {
                owner_id: owner_id.clone(),
                amount: total_supply,
                memo: Some(String::from_str("Initial tokens supply is minted")),
            },
        );
        let r = Contract { token, metadata: Some(metadata), events };
        proof {
            assert(r.spec_events() =~= seq![
                EventV::Mint {
                    owner_id: owner_id@,
                    amount: total_supply,
                    memo: Some("Initial tokens supply is minted"@),
                },
            ]);
        }
        r
    }

    /// Initializes the contract with the given total supply owned by
    /// `owner_id` and the default metadata.
    pub fn new_default_meta(owner_id: String, total_supply: u128) -> (r: Contract)
        ensures
            r.wf(),
            r.token.spec_registered(owner_id@),
            r.token.spec_balance(owner_id@) == total_supply,
            forall|b: Seq<char>| b != owner_id@ ==> !r.token.spec_registered(b),
            r.token.total == total_supply,
            r.metadata matches Some(m) ==> {
                &&& m.spec_valid()
                &&& m.name@ == "URA fungible token"@
                &&& m.symbol@ == "URA"@
                &&& m.decimals == 6
            },
            r.metadata is Some,
            r.spec_events() == seq![
                EventV::Mint {
                    owner_id: owner_id@,
                    amount: total_supply,
                    memo: Some("Initial tokens supply is minted"@),
                },
            ],
    {
        let metadata = FtMetadata {
            spec_version: metadata_spec_version(),
            name: String::from_str("URA fungible token"),
            symbol: String::from_str("URA"),
            icon: Some(String::from_str(DATA_IMAGE_SVG_NEAR_ICON)),
            reference: None,
            reference_hash: None,
            decimals: 6,
        };
        Contract::new(owner_id, total_supply, metadata)
    }

    /// The token's descriptive metadata.
    pub fn ft_metadata(&self) -> (r: &Option<FtMetadata>)
        ensures
            *r == self.metadata,
    {
        &self.metadata
    }

    /// The account's balance; zero for an unregistered account.  Query only:
    /// it never mutates and never fails, and its result is a function of the
    /// contract state alone.
    pub fn ft_balance_of(&self, account_id: &String) -> (r: u128)
        requires
            self.wf(),
        ensures
            r == self.token.spec_balance(account_id@),
    {
        self.token.balance_of(account_id)
    }

    /// The total supply.  Query only, with the same stability as
    /// `ft_balance_of`.
    pub fn ft_total_supply(&self) -> (r: u128)
        ensures
            r == self.token.total,
    {
        self.token.total_supply()
    }

    /// Synchronous transfer from `sender_id` to `receiver_id`, recording a
    /// transfer event after the ledger mutation commits.  The host is
    /// responsible for the one-yoctodeposit anti-spam guard and for naming
    /// the caller as `sender_id`.
    pub fn ft_transfer(
        &mut self,
        sender_id: &String,
        receiver_id: &String,
        amount: u128,
        memo: Option<String>,
    ) -> (r: Result<(), TokenError>)
        requires
            old(self).wf(),
        ensures
            final(self).wf(),
            r == spec_transfer_check(old(self).token, sender_id@, receiver_id@, amount),
            r is Err ==> *final(self) == *old(self),
            r is Ok ==> {
                &&& transfer_effect(
                    old(self).token,
                    final(self).token,
                    sender_id@,
                    receiver_id@,
                    amount,
                )
                &&& final(self).metadata == old(self).metadata
                &&& final(self).spec_events() == old(self).spec_events().push(
                    EventV::Transfer {
                        sender_id: sender_id@,
                        receiver_id: receiver_id@,
                        amount: amount,
                        memo: memo.deep_view(),
                    },
                )
            },
    {
        let ghost pre = *self;
        match self.token.transfer(sender_id, receiver_id, amount) {
            Err(e) => Err(e),
            Ok(_) => {
                self.events.push(
                    Event::Transfer {
                        sender_id: sender_id.clone(),
                        receiver_id: receiver_id.clone(),
                        amount: amount,
                        memo,
                    },
                );
                proof {
                    assert(self.spec_events() =~= pre.spec_events().push(
                        EventV::Transfer {
                            sender_id: sender_id@,
                            receiver_id: receiver_id@,
                            amount: amount,
                            memo: memo.deep_view(),
                        },
                    ));
                }
                Ok(())
            },
        }
    }

    /// First phase of a transfer-and-call: the amount moves eagerly to the
    /// receiver, exactly as in `ft_transfer`, and the returned pending record
    /// is what the host must deliver to `ft_resolve_transfer` once the
    /// receiver's handling call has completed or failed.
    pub fn ft_transfer_call(
        &mut self,
        sender_id: &String,
        receiver_id: &String,
        amount: u128,
        memo: Option<String>,
    ) -> (r: Result<PendingTransfer, TokenError>)
        requires
            old(self).wf(),
        ensures
            final(self).wf(),
            (match r {
                Ok(_) => Ok(()),
                Err(e) => Err(e),
            }) == spec_transfer_check(old(self).token, sender_id@, receiver_id@, amount),
            r is Err ==> *final(self) == *old(self),
            r matches Ok(p) ==> {
                &&& p.sender_id@ == sender_id@
                &&& p.receiver_id@ == receiver_id@
                &&& p.amount == amount
                &&& transfer_effect(
                    old(self).token,
                    final(self).token,
                    sender_id@,
                    receiver_id@,
                    amount,
                )
                &&& final(self).metadata == old(self).metadata
                &&& final(self).spec_events() == old(self).spec_events().push(
                    EventV::Transfer {
                        sender_id: sender_id@,
                        receiver_id: receiver_id@,
                        amount: amount,
                        memo: memo.deep_view(),
                    },
                )
            },
    {
        match self.ft_transfer(sender_id, receiver_id, amount, memo) {
            Err(e) => Err(e),
            Ok(_) => Ok(
                PendingTransfer {
                    sender_id: sender_id.clone(),
                    receiver_id: receiver_id.clone(),
                    amount,
                },
            ),
        }
    }

    /// Resolution of a transfer-and-call, run once the receiver's outcome is
    /// known: `Ok(unused)` is the amount the receiver reports as unused, an
    /// error stands for a failed receiver call and refunds everything.  The
    /// refund is clamped to what the receiver still holds; if the sender's
    /// account is gone, the clamped refund is burned instead, so the total
    /// supply never grows.  Returns the amount kept and the amount burned.
    pub fn ft_resolve_transfer(
        &mut self,
        sender_id: &String,
        receiver_id: &String,
        amount: u128,
        receiver_outcome: Result<u128, TokenError>,
    ) -> (r: (u128, u128))
        requires
            old(self).wf(),
        ensures
            final(self).wf(),
            r == spec_resolve_result(
                old(self).token,
                sender_id@,
                receiver_id@,
                amount,
                receiver_outcome,
            ),
            resolve_effect(
                *old(self),
                *final(self),
                sender_id@,
                receiver_id@,
                amount,
                receiver_outcome,
            ),
    {
        let ghost pre = *self;
        let unused: u128 = match receiver_outcome {
            Ok(u) => if u < amount {
                u
            } else {
                amount
            },
            Err(_) => amount,
        };
        if unused == 0 {
            return (amount, 0);
        }
        let receiver_balance: u128 = self.token.balance_of(receiver_id);
        let refund: u128 = if receiver_balance < unused {
            receiver_balance
        } else {
            unused
        };
        if refund == 0 {
            return (amount, 0);
        }
        let refund_memo = Some(String::from_str("refund"));
        if self.token.is_registered(sender_id) {
            if *sender_id == *receiver_id {
                // The refund would come back to the very account it leaves:
                // no net movement, only the event.
                self.events.push(
                    Event::Transfer {
                        sender_id: receiver_id.clone(),
                        receiver_id: sender_id.clone(),
                        amount: refund,
                        memo: refund_memo,
                    },
                );
                proof {
                    assert(self.spec_events() =~= pre.spec_events().push(
                        EventV::Transfer {
                            sender_id: receiver_id@,
                            receiver_id: sender_id@,
                            amount: refund,
                            memo: Some("refund"@),
                        },
                    ));
                }
                return (amount - refund, 0);
            }
            let moved = self.token.transfer(receiver_id, sender_id, refund);
            proof {
                assert(moved is Ok);
            }
            self.events.push(
                Event::Transfer {
                    sender_id: receiver_id.clone(),
                    receiver_id: sender_id.clone(),
                    amount: refund,
                    memo: refund_memo,
                },
            );
            proof {
                assert(self.spec_events() =~= pre.spec_events().push(
                    EventV::Transfer {
                        sender_id: receiver_id@,
                        receiver_id: sender_id@,
                        amount: refund,
                        memo: Some("refund"@),
                    },
                ));
            }
            (amount - refund, 0)
        } else {
            // The sender's account was deleted while the call was in flight:
            // burn the refund rather than minting it back.
            let burned = self.token.withdraw(receiver_id, refund);
            proof {
                assert(burned is Ok);
            }
            self.events.push(
                Event::Burn {
                    owner_id: receiver_id.clone(),
                    amount: refund,
                    memo: refund_memo,
                },
            );
            proof {
                assert(self.spec_events() =~= pre.spec_events().push(
                    EventV::Burn {
                        owner_id: receiver_id@,
                        amount: refund,
                        memo: Some("refund"@),
                    },
                ));
            }
            (amount, refund)
        }
    }

    /// Accepts a storage deposit for `account_id`, registering it when the
    /// deposit covers the registration cost; the unused part of the deposit
    /// is reported back for the host to refund.  `registration_only` makes no
    /// difference here because entries are fixed-size and the bounds
    /// coincide.
    #[allow(unused_variables)]
    pub fn storage_deposit(
        &mut self,
        account_id: &String,
        attached_deposit: u128,
        registration_only: bool,
        storage_cost: u128,
    ) -> (r: Result<StorageDepositOutcome, TokenError>)
        requires
            old(self).wf(),
        ensures
            final(self).wf(),
            r == spec_storage_deposit_check(*old(self), account_id@, attached_deposit, storage_cost),
            r is Err ==> *final(self) == *old(self),
            old(self).token.spec_registered(account_id@) ==> *final(self) == *old(self),
            (!old(self).token.spec_registered(account_id@) && attached_deposit >= storage_cost)
                ==> {
                &&& register_effect(old(self).token, final(self).token, account_id@)
                &&& final(self).metadata == old(self).metadata
                &&& final(self).spec_events() == old(self).spec_events()
            },
    {
        if self.token.is_registered(account_id) {
            return Ok(
                StorageDepositOutcome {
                    refund: attached_deposit,
                    balance: StorageBalance { total: storage_cost, available: 0 },
                },
            );
        }
        if attached_deposit < storage_cost {
            return Err(TokenError::InsufficientStorageDeposit);
        }
        let registered = self.token.register(account_id);
        proof {
            assert(registered is Ok);
        }
        Ok(
            StorageDepositOutcome {
                refund: attached_deposit - storage_cost,
                balance: StorageBalance { total: storage_cost, available: 0 },
            },
        )
    }

    /// Reports the withdrawable storage balance.  Entries are fixed-size, so
    /// nothing beyond the registration minimum is ever held and any positive
    /// withdrawal is rejected; the call never mutates.
    pub fn storage_withdraw(
        &self,
        account_id: &String,
        amount: Option<u128>,
        storage_cost: u128,
    ) -> (r: Result<StorageBalance, TokenError>)
        requires
            self.wf(),
        ensures
            r == spec_storage_withdraw_check(*self, account_id@, amount, storage_cost),
    {
        if !self.token.is_registered(account_id) {
            return Err(TokenError::NotRegistered);
        }
        match amount {
            Some(x) if x > 0 => Err(TokenError::StorageUnavailable),
            _ => Ok(StorageBalance { total: storage_cost, available: 0 }),
        }
    }

    /// Unregisters the account, burning its remaining balance when forced,
    /// and reports the registration deposit owed back to the caller.  A burn
    /// event records any burned balance.
    pub fn storage_unregister(&mut self, account_id: &String, force: bool, storage_cost: u128) -> (r:
        Result<u128, TokenError>)
        requires
            old(self).wf(),
        ensures
            final(self).wf(),
            r == spec_storage_unregister_check(*old(self), account_id@, force, storage_cost),
            r is Err ==> *final(self) == *old(self),
            r is Ok ==> {
                &&& unregister_effect(old(self).token, final(self).token, account_id@)
                &&& final(self).metadata == old(self).metadata
                &&& if old(self).token.spec_balance(account_id@) == 0 {
                    final(self).spec_events() == old(self).spec_events()
                } else {
                    final(self).spec_events() == old(self).spec_events().push(
                        EventV::Burn {
                            owner_id: account_id@,
                            amount: old(self).token.spec_balance(account_id@),
                            memo: None,
                        },
                    )
                }
            },
    {
        let ghost pre = *self;
        match self.token.unregister(account_id, force) {
            Err(e) => Err(e),
            Ok(balance) => {
                if balance > 0 {
                    self.events.push(
                        Event::Burn { owner_id: account_id.clone(), amount: balance, memo: None },
                    );
                    proof {
                        assert(self.spec_events() =~= pre.spec_events().push(
                            EventV::Burn {
                                owner_id: account_id@,
                                amount: balance,
                                memo: None,
                            },
                        ));
                    }
                }
                Ok(storage_cost)
            },
        }
    }

    /// The account's storage balance, if it is registered.  Query only.
    pub fn storage_balance_of(&self, account_id: &String, storage_cost: u128) -> (r: Option<
        StorageBalance,
    >)
        ensures
            r == (if self.token.spec_registered(account_id@) {
                Some(StorageBalance { total: storage_cost, available: 0 })
            } else {
                Option::<StorageBalance>::None
            }),
    {
        if self.token.is_registered(account_id) {
            Some(StorageBalance { total: storage_cost, available: 0 })
        } else {
            None
        }
    }
}

/// Creates the contract state exactly once: a second initialization is
/// rejected with `AlreadyInitialized` and changes nothing.
pub fn initialize(
    slot: &mut Option<Contract>,
    owner_id: String,
    total_supply: u128,
    metadata: FtMetadata,
) -> (r: Result<(), TokenError>)
    requires
        metadata.spec_valid(),
    ensures
        (*old(slot)) is Some ==> r == Err::<(), TokenError>(TokenError::AlreadyInitialized)
            && *final(slot) == *old(slot),
        (*old(slot)) is None ==> r is Ok && ((*final(slot)) matches Some(c) && spec_fresh_contract(
            c,
            owner_id@,
            total_supply,
            metadata,
        )),
{
    match slot {
        Some(_) => Err(TokenError::AlreadyInitialized),
        None => {
            *slot = Some(Contract::new(owner_id, total_supply, metadata));
            Ok(())
        },
    }
}

/// The contract state the host reloads around a call; a missing state is
/// rejected with `NotInitialized`.
pub fn loaded(slot: &Option<Contract>) -> (r: Result<&Contract, TokenError>)
    ensures
        match slot {
            Some(c) => r matches Ok(rc) && *rc == *c,
            None => r == Err::<&Contract, TokenError>(TokenError::NotInitialized),
        },
{
    match slot {
        Some(c) => Ok(c),
        None => Err(TokenError::NotInitialized),
    }
}

} // verus!
