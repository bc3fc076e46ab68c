//! Wrapped asset ledger: mint and burn by the asset's bridge controller.
//!
//! A wrapped asset keeps the balance of every holder. The ledger's
//! invariant is that the total supply equals the sum of all balances and
//! stays within `[0, max_supply]`; minting adds to one balance and to the
//! supply (subject to the cap and to the rolling rate limit), burning takes
//! from one balance and from the supply.
use vstd::prelude::*;

use crate::bridge::rate_limit::{enforce_and_record, window_wf, MintWindowEntry};
use crate::contract::ContractData;
use crate::error::ContractError;
use crate::Address;

verus! {

/// A holder's balance of a wrapped asset.
#[derive(Clone, Copy, Debug, PartialEq, Eq, Structural)]
pub struct HolderBalance {
    pub holder: Address,
    pub amount: i128,
}

/// Configuration and supply of a wrapped asset.
#[derive(Clone, Debug)]
pub struct BridgeAssetConfig {
    pub asset_code: String,
    pub controller: Address,
    pub max_supply: i128,
    pub total_supply: i128,
}

/// A wrapped asset with its holders' balances.
#[derive(Clone, Debug)]
pub struct WrappedAsset {
    pub config: BridgeAssetConfig,
    /// Positive balances of distinct holders; a holder not listed holds 0.
    pub balances: Vec<HolderBalance>,
}

/// Sum of the listed balances.
pub open spec fn sum_balances(s: Seq<HolderBalance>) -> int
    decreases s.len(),
{
    if s.len() == 0 {
        0
    } else {
        sum_balances(s.drop_last()) + s.last().amount
    }
}

/// The index of `holder` among the balances, or -1.
pub open spec fn holder_index(s: Seq<HolderBalance>, holder: Address) -> int {
    if exists|i: int| 0 <= i < s.len() && s[i].holder == holder {
        choose|i: int| 0 <= i < s.len() && s[i].holder == holder
    } else {
        -1
    }
}

/// The balance of `holder` (zero when not listed).
pub open spec fn balance_in(s: Seq<HolderBalance>, holder: Address) -> int {
    let i = holder_index(s, holder);
    if i < 0 {
        0
    } else {
        s[i].amount as int
    }
}

/// Distinct holders with positive balances.
pub open spec fn balances_wf(s: Seq<HolderBalance>) -> bool {
    &&& forall|i: int, j: int| 0 <= i < j < s.len() ==> s[i].holder != s[j].holder
    &&& forall|i: int| 0 <= i < s.len() ==> #[trigger] s[i].amount > 0
}

impl WrappedAsset {
    /// The supply is the sum of the balances and lies in `[0, max_supply]`.
    pub open spec fn wf(&self) -> bool {
        &&& balances_wf(self.balances@)
        &&& self.config.total_supply == sum_balances(self.balances@)
        &&& 0 <= self.config.total_supply <= self.config.max_supply
    }
}

proof fn lemma_sum_nonneg(s: Seq<HolderBalance>)
    requires
        forall|i: int| 0 <= i < s.len() ==> #[trigger] s[i].amount > 0,
    ensures
        sum_balances(s) >= 0,
    decreases s.len(),
{
    if s.len() > 0 {
        assert(s.drop_last().len() < s.len());
        assert forall|i: int| 0 <= i < s.drop_last().len() implies #[trigger] s.drop_last()[i].amount > 0 by {
            assert(s.drop_last()[i] == s[i]);
        }
        lemma_sum_nonneg(s.drop_last());
        assert(s[s.len() - 1].amount > 0);
    }
}

proof fn lemma_sum_update(s: Seq<HolderBalance>, i: int, v: HolderBalance)
    requires
        0 <= i < s.len(),
    ensures
        sum_balances(s.update(i, v)) == sum_balances(s) - s[i].amount + v.amount,
    decreases s.len(),
{
    if i == s.len() - 1 {
        assert(s.update(i, v).drop_last() =~= s.drop_last());
    } else {
        lemma_sum_update(s.drop_last(), i, v);
        assert(s.update(i, v).drop_last() =~= s.drop_last().update(i, v));
    }
}

proof fn lemma_sum_remove(s: Seq<HolderBalance>, i: int)
    requires
        0 <= i < s.len(),
    ensures
        sum_balances(s.remove(i)) == sum_balances(s) - s[i].amount,
    decreases s.len(),
{
    if i == s.len() - 1 {
        assert(s.remove(i) =~= s.drop_last());
    } else {
        lemma_sum_remove(s.drop_last(), i);
        assert(s.remove(i).drop_last() =~= s.drop_last().remove(i));
    }
}

proof fn lemma_member_le_sum(s: Seq<HolderBalance>, i: int)
    requires
        0 <= i < s.len(),
        forall|k: int| 0 <= k < s.len() ==> #[trigger] s[k].amount > 0,
    ensures
        s[i].amount <= sum_balances(s),
    decreases s.len(),
{
    assert forall|k: int| 0 <= k < s.drop_last().len() implies #[trigger] s.drop_last()[k].amount > 0 by {
        assert(s.drop_last()[k] == s[k]);
    }
    if i == s.len() - 1 {
        lemma_sum_nonneg(s.drop_last());
    } else {
        lemma_member_le_sum(s.drop_last(), i);
        assert(s[s.len() - 1].amount > 0);
    }
}

fn find_holder(s: &Vec<HolderBalance>, holder: Address) -> (r: Option<usize>)
    requires
        balances_wf(s@),
    ensures
        match r {
            Some(i) => i < s@.len() && i == holder_index(s@, holder),
            None => holder_index(s@, holder) == -1,
        },
{
    let mut i: usize = 0;
    while i < s.len()
        invariant
            i <= s@.len(),
            balances_wf(s@),
            forall|k: int| 0 <= k < i ==> s@[k].holder != holder,
        decreases s.len() - i,
    {
        if s[i].holder == holder {
            proof {
                let c = holder_index(s@, holder);
                assert(0 <= c < s@.len() && s@[c].holder == holder);
                if c > i {
                    assert(s@[i as int].holder != s@[c].holder);
                }
            }
            return Some(i);
        }
        i = i + 1;
    }
    None
}

/// The balance of `holder`.
pub fn balance_of(asset: &WrappedAsset, holder: Address) -> (r: i128)
    requires
        asset.wf(),
    ensures
        r == balance_in(asset.balances@, holder),
{
    match find_holder(&asset.balances, holder) {
        Some(i) => asset.balances[i].amount,
        None => 0,
    }
}

/// Registers a wrapped asset as the contract admin. `already_registered`
/// says whether a configuration for the code exists.
pub fn register_wrapped_asset(
    data: Option<ContractData>,
    admin: Address,
    asset_code: String,
    controller: Address,
    max_supply: i128,
    already_registered: bool,
) -> (r: Result<WrappedAsset, ContractError>)
    ensures
        data is None ==> (r matches Err(e) && e == ContractError::NotInitialized),
        data matches Some(d) ==> (d.admin != admin ==> (r matches Err(e) && e == ContractError::NotAdmin)),
        data matches Some(d) ==> (d.admin == admin && max_supply <= 0 ==> (r matches Err(e) && e
            == ContractError::Overflow)),
        data matches Some(d) ==> (d.admin == admin && max_supply > 0 && already_registered ==> (r matches Err(e)
            && e == ContractError::AlreadyRegistered)),
        data matches Some(d) ==> (d.admin == admin && max_supply > 0 && !already_registered ==> (r matches Ok(a)
            && {
            &&& a.wf()
            &&& a.config.asset_code@ == asset_code@
            &&& a.config.controller == controller
            &&& a.config.max_supply == max_supply
            &&& a.config.total_supply == 0
            &&& a.balances@.len() == 0
        })),
{
    match data {
        None => return Err(ContractError::NotInitialized),
        Some(d) => {
            if d.admin != admin {
                return Err(ContractError::NotAdmin);
            }
        },
    }
    if max_supply <= 0 {
        return Err(ContractError::BridgeInvalidMaxSupply);
    }
    if already_registered {
        return Err(ContractError::BridgeAssetAlreadyRegistered);
    }
    let config = BridgeAssetConfig { asset_code, controller, max_supply, total_supply: 0 };
    Ok(WrappedAsset { config, balances: Vec::new() })
}

/// Hands control of a registered wrapped asset (`None` when the code is
/// unknown) to `new_controller` as the contract admin.
pub fn set_bridge_controller(
    data: Option<ContractData>,
    admin: Address,
    asset: &mut Option<WrappedAsset>,
    new_controller: Address,
) -> (r: Result<(), ContractError>)
    requires
        *old(asset) matches Some(a) ==> a.wf(),
    ensures
        *final(asset) matches Some(a) ==> a.wf(),
        data is None ==> (r matches Err(e) && e == ContractError::NotInitialized),
        data matches Some(d) ==> (d.admin != admin ==> (r matches Err(e) && e == ContractError::NotAdmin)),
        data matches Some(d) ==> (d.admin == admin && (*old(asset)) is None ==> (r matches Err(e) && e
            == ContractError::NotRegistered)),
        data matches Some(d) ==> (d.admin == admin && (*old(asset)) is Some ==> r is Ok),
        r is Err ==> *final(asset) == *old(asset),
        r is Ok ==> (*final(asset)) is Some && (*old(asset)) is Some && {
            let a = (*old(asset))->0;
            let b = (*final(asset))->0;
            &&& b.config.controller == new_controller
            &&& b.balances@ == a.balances@
            &&& b.config.total_supply == a.config.total_supply
            &&& b.config.max_supply == a.config.max_supply
            &&& b.config.asset_code@ == a.config.asset_code@
        },
{
    match data {
        None => return Err(ContractError::NotInitialized),
        Some(d) => {
            if d.admin != admin {
                return Err(ContractError::NotAdmin);
            }
        },
    }
    match asset.take() {
        None => Err(ContractError::BridgeAssetNotRegistered),
        Some(mut a) => {
            a.config.controller = new_controller;
            *asset = Some(a);
            Ok(())
        },
    }
}

/// The failure of minting `amount` of a registered wrapped asset to `to`
/// by `controller`, before the rate limit is consulted, if any.
pub open spec fn mint_precheck(a: WrappedAsset, controller: Address, amount: i128) -> Option<ContractError> {
    if a.config.controller != controller {
        Some(ContractError::Unauthorized)
    } else if a.config.total_supply + amount > i128::MAX || a.config.total_supply + amount > a.config.max_supply {
        Some(ContractError::Overflow)
    } else {
        None
    }
}

/// Handing control to another address revokes the old controller: once
/// the asset's controller is someone else, its mints are refused as
/// unauthorized, whatever the amount.
pub proof fn lemma_rotated_controller_cannot_mint(a: WrappedAsset, old_controller: Address, amount: i128)
    requires
        a.config.controller != old_controller,
    ensures
        mint_precheck(a, old_controller, amount) == Some(ContractError::Unauthorized),
{
}

/// Mints `amount` of a wrapped asset to `to`, by its controller. `asset` is
/// the registered asset (`None` when the code is unknown), `window` its
/// recorded mints and `rate_cap` its configured rolling cap (the max supply
/// applies when none is). Returns the new total supply.
pub fn mint(
    asset: &mut Option<WrappedAsset>,
    window: &mut Vec<MintWindowEntry>,
    rate_cap: Option<i128>,
    controller: Address,
    to: Address,
    amount: i128,
    now: u64,
) -> (r: Result<i128, ContractError>)
    requires
        *old(asset) matches Some(a) ==> a.wf() && a.balances@.len() < usize::MAX,
        window_wf(old(window)@),
    ensures
        *final(asset) matches Some(a) ==> a.wf(),
        window_wf(final(window)@),
        r is Err ==> *final(asset) == *old(asset) && final(window)@ == old(window)@,
        amount <= 0 ==> (r matches Err(e) && e == ContractError::AmountTooLow),
        amount > 0 && (*old(asset)) is None ==> (r matches Err(e) && e == ContractError::NotRegistered),
        amount > 0 ==> (*old(asset) matches Some(a) ==> (mint_precheck(a, controller, amount) is Some ==> r == Err::<
            i128,
            ContractError,
        >(mint_precheck(a, controller, amount)->0))),
        r matches Ok(total) ==> (*old(asset)) is Some && (*final(asset)) is Some && {
            let a = (*old(asset))->0;
            let b = (*final(asset))->0;
            &&& total == a.config.total_supply + amount
            &&& b.config.total_supply == total
            &&& balance_in(b.balances@, to) == balance_in(a.balances@, to) + amount
            &&& forall|h: Address| h != to ==> balance_in(b.balances@, h) == balance_in(a.balances@, h)
            &&& b.config.controller == a.config.controller
            &&& b.config.max_supply == a.config.max_supply
            &&& b.config.asset_code@ == a.config.asset_code@
        },
        amount > 0 ==> (*old(asset) matches Some(a) ==> (mint_precheck(a, controller, amount) is None ==> (r is Ok
            <==> crate::bridge::rate_limit::rate_limit_outcome(
            old(window)@,
            (if rate_cap is Some { rate_cap->0 } else { a.config.max_supply }),
            amount,
            now,
        ) is Ok))),
{
    if amount <= 0 {
        return Err(ContractError::BridgeInvalidAmount);
    }
    let mut a = match asset.take() {
        Some(a) => a,
        None => return Err(ContractError::BridgeAssetNotRegistered),
    };
    if a.config.controller != controller {
        *asset = Some(a);
        return Err(ContractError::BridgeNotController);
    }
    let new_total_supply = match a.config.total_supply.checked_add(amount) {
        Some(v) => v,
        None => {
            *asset = Some(a);
            return Err(ContractError::MathOverflow);
        },
    };
    if new_total_supply > a.config.max_supply {
        *asset = Some(a);
        return Err(ContractError::BridgeSupplyCapExceeded);
    }
    match enforce_and_record(window, rate_cap, amount, a.config.max_supply, now) {
        Ok(()) => {},
        Err(e) => {
            *asset = Some(a);
            return Err(e);
        },
    }
    let ghost before = a.balances@;
    match find_holder(&a.balances, to) {
        Some(i) => {
            let cur = a.balances[i].amount;
            proof {
                lemma_member_le_sum(before, i as int);
            }
            a.balances.set(i, HolderBalance { holder: to, amount: cur + amount });
            proof {
                lemma_sum_update(before, i as int, HolderBalance { holder: to, amount: (cur + amount) as i128 });
                assert forall|x: int, y: int| 0 <= x < y < a.balances@.len() implies a.balances@[x].holder
                    != a.balances@[y].holder by {
                    assert(before[x].holder != before[y].holder);
                }
                assert forall|x: int| 0 <= x < a.balances@.len() implies #[trigger] a.balances@[x].amount > 0 by {
                    assert(before[x].amount > 0);
                }
                assert forall|h: Address| h != to implies balance_in(a.balances@, h) == balance_in(before, h) by {
                    let k = holder_index(before, h);
                    if k >= 0 {
                        assert(a.balances@[k].holder == h);
                        assert(holder_index(a.balances@, h) == k) by {
                            let c = holder_index(a.balances@, h);
                            if c != k {
                                assert(a.balances@[c].holder == h);
                                if c < k {
                                    assert(a.balances@[c].holder != a.balances@[k].holder);
                                } else {
                                    assert(a.balances@[k].holder != a.balances@[c].holder);
                                }
                            }
                        }
                    } else {
                        if exists|c: int| 0 <= c < a.balances@.len() && a.balances@[c].holder == h {
                            let c = choose|c: int| 0 <= c < a.balances@.len() && a.balances@[c].holder == h;
                            assert(before[c].holder == h);
                        }
                    }
                }
                assert(holder_index(a.balances@, to) == i) by {
                    let c = holder_index(a.balances@, to);
                    assert(a.balances@[i as int].holder == to);
                    if c != i {
                        if c < i {
                            assert(a.balances@[c].holder != a.balances@[i as int].holder);
                        } else {
                            assert(a.balances@[i as int].holder != a.balances@[c].holder);
                        }
                    }
                }
            }
        },
        None => {
            a.balances.push(HolderBalance { holder: to, amount });
            proof {
                assert(a.balances@.drop_last() =~= before);
                assert forall|x: int, y: int| 0 <= x < y < a.balances@.len() implies a.balances@[x].holder
                    != a.balances@[y].holder by {
                    if y < before.len() {
                        assert(before[x].holder != before[y].holder);
                    } else {
                        assert(before[x].holder != to);
                    }
                }
                assert forall|x: int| 0 <= x < a.balances@.len() implies #[trigger] a.balances@[x].amount > 0 by {
                    if x < before.len() {
                        assert(before[x].amount > 0);
                    }
                }
                assert forall|h: Address| h != to implies balance_in(a.balances@, h) == balance_in(before, h) by {
                    if exists|c: int| 0 <= c < a.balances@.len() && a.balances@[c].holder == h {
                        let c = choose|c: int| 0 <= c < a.balances@.len() && a.balances@[c].holder == h;
                        assert(c < before.len());
                        assert(before[c].holder == h);
                        let k = holder_index(before, h);
                        assert(holder_index(a.balances@, h) == k) by {
                            let c2 = holder_index(a.balances@, h);
                            assert(a.balances@[k].holder == h);
                            if c2 != k {
                                if c2 < k {
                                    assert(a.balances@[c2].holder != a.balances@[k].holder);
                                } else {
                                    assert(a.balances@[k].holder != a.balances@[c2].holder);
                                }
                            }
                        }
                    } else {
                        if exists|c: int| 0 <= c < before.len() && before[c].holder == h {
                            let c = choose|c: int| 0 <= c < before.len() && before[c].holder == h;
                            assert(a.balances@[c].holder == h);
                        }
                    }
                }
                let n = before.len() as int;
                assert(holder_index(a.balances@, to) == n) by {
                    let c = holder_index(a.balances@, to);
                    assert(a.balances@[n].holder == to);
                    if c != n {
                        assert(before[c].holder == to);
                    }
                }
            }
        },
    }
    a.config.total_supply = new_total_supply;
    *asset = Some(a);
    Ok(new_total_supply)
}

/// The failure of burning `amount` from `from` of a registered wrapped
/// asset by `controller`, if any.
pub open spec fn burn_error(a: WrappedAsset, controller: Address, from: Address, amount: i128) -> Option<ContractError> {
    if amount <= 0 {
        Some(ContractError::AmountTooLow)
    } else if a.config.controller != controller {
        Some(ContractError::Unauthorized)
    } else if amount > balance_in(a.balances@, from) {
        Some(ContractError::Overflow)
    } else {
        None
    }
}

/// Burns `amount` of a wrapped asset from `from`, by its controller;
/// an emptied balance is removed. Returns the new total supply.
pub fn burn(asset: &mut Option<WrappedAsset>, controller: Address, from: Address, amount: i128) -> (r: Result<
    i128,
    ContractError,
>)
    requires
        *old(asset) matches Some(a) ==> a.wf(),
    ensures
        *final(asset) matches Some(a) ==> a.wf(),
        r is Err ==> *final(asset) == *old(asset),
        amount <= 0 ==> (r matches Err(e) && e == ContractError::AmountTooLow),
        amount > 0 && (*old(asset)) is None ==> (r matches Err(e) && e == ContractError::NotRegistered),
        *old(asset) matches Some(a) ==> (match burn_error(a, controller, from, amount) {
            Some(e) => r == Err::<i128, ContractError>(e),
            None => r is Ok,
        }),
        r matches Ok(total) ==> (*old(asset)) is Some && (*final(asset)) is Some && {
            let a = (*old(asset))->0;
            let b = (*final(asset))->0;
            &&& total == a.config.total_supply - amount
            &&& b.config.total_supply == total
            &&& balance_in(b.balances@, from) == balance_in(a.balances@, from) - amount
            &&& forall|h: Address| h != from ==> balance_in(b.balances@, h) == balance_in(a.balances@, h)
            &&& b.config.controller == a.config.controller
            &&& b.config.max_supply == a.config.max_supply
            &&& b.config.asset_code@ == a.config.asset_code@
        },
{
    if amount <= 0 {
        return Err(ContractError::BridgeInvalidAmount);
    }
    let mut a = match asset.take() {
        Some(a) => a,
        None => return Err(ContractError::BridgeAssetNotRegistered),
    };
    if a.config.controller != controller {
        *asset = Some(a);
        return Err(ContractError::BridgeNotController);
    }
    let ghost before = a.balances@;
    let idx = find_holder(&a.balances, from);
    let balance: i128 = match idx {
        Some(i) => a.balances[i].amount,
        None => 0,
    };
    if amount > balance {
        *asset = Some(a);
        return Err(ContractError::BridgeInsufficientBalance);
    }
    let i = idx.unwrap();
    proof {
        lemma_member_le_sum(before, i as int);
    }
    let new_balance = balance - amount;
    if new_balance == 0 {
        a.balances.remove(i);
        proof {
            lemma_sum_remove(before, i as int);
            let s = a.balances@;
            assert forall|x: int, y: int| 0 <= x < y < s.len() implies s[x].holder != s[y].holder by {
                let ox = if x < i { x } else { x + 1 };
                let oy = if y < i { y } else { y + 1 };
                assert(s[x] == before[ox] && s[y] == before[oy]);
                assert(before[ox].holder != before[oy].holder);
            }
            assert forall|x: int| 0 <= x < s.len() implies #[trigger] s[x].amount > 0 by {
                let ox = if x < i { x } else { x + 1 };
                assert(s[x] == before[ox]);
                assert(before[ox].amount > 0);
            }
            assert forall|h: Address| h != from implies balance_in(s, h) == balance_in(before, h) by {
                let k = holder_index(before, h);
                if k >= 0 {
                    assert(k != i);
                    let nk = if k < i { k } else { k - 1 };
                    assert(s[nk] == before[k]);
                    assert(holder_index(s, h) == nk) by {
                        let c = holder_index(s, h);
                        if c != nk {
                            let oc = if c < i { c } else { c + 1 };
                            assert(s[c] == before[oc]);
                            if oc < k {
                                assert(before[oc].holder != before[k].holder);
                            } else {
                                assert(before[k].holder != before[oc].holder);
                            }
                        }
                    }
                } else {
                    if exists|c: int| 0 <= c < s.len() && s[c].holder == h {
                        let c = choose|c: int| 0 <= c < s.len() && s[c].holder == h;
                        let oc = if c < i { c } else { c + 1 };
                        assert(s[c] == before[oc]);
                    }
                }
            }
            if exists|c: int| 0 <= c < s.len() && s[c].holder == from {
                let c = choose|c: int| 0 <= c < s.len() && s[c].holder == from;
                let oc = if c < i { c } else { c + 1 };
                assert(s[c] == before[oc]);
                if oc < i {
                    assert(before[oc].holder != before[i as int].holder);
                } else {
                    assert(before[i as int].holder != before[oc].holder);
                }
            }
        }
    } else {
        a.balances.set(i, HolderBalance { holder: from, amount: new_balance });
        proof {
            lemma_sum_update(before, i as int, HolderBalance { holder: from, amount: new_balance });
            let s = a.balances@;
            assert forall|x: int, y: int| 0 <= x < y < s.len() implies s[x].holder != s[y].holder by {
                assert(before[x].holder != before[y].holder);
            }
            assert forall|x: int| 0 <= x < s.len() implies #[trigger] s[x].amount > 0 by {
                assert(before[x].amount > 0);
            }
            assert forall|h: Address| holder_index(s, h) == holder_index(before, h) by {
                if exists|c: int| 0 <= c < s.len() && s[c].holder == h {
                    let c = choose|c: int| 0 <= c < s.len() && s[c].holder == h;
                    assert(before[c].holder == h);
                    let c1 = holder_index(s, h);
                    let c2 = holder_index(before, h);
                    if c1 != c2 {
                        assert(s[c2].holder == h);
                        if c1 < c2 {
                            assert(s[c1].holder != s[c2].holder);
                        } else {
                            assert(s[c2].holder != s[c1].holder);
                        }
                    }
                } else {
                    if exists|c: int| 0 <= c < before.len() && before[c].holder == h {
                        let c = choose|c: int| 0 <= c < before.len() && before[c].holder == h;
                        assert(s[c].holder == h);
                    }
                }
            }
        }
    }
    a.config.total_supply = a.config.total_supply - amount;
    let total = a.config.total_supply;
    *asset = Some(a);
    Ok(total)
}

} // verus!
