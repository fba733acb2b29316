use vstd::prelude::*;
use vstd::string::StrSliceExecFns;
use crate::accounts::{EmployeeAccount, VestingAccount, MAX_COMPANY_NAME_LEN};
use crate::error::ErrorCode;
use crate::pubkey::Pubkey;
use crate::vesting_math::{
    claimable_amount, claimable_spec, lemma_vested_in_range, vested_amount, vested_result,
};

verus! {

/// A schedule record together with the address the ledger assigned to it.
#[derive(Clone, Debug)]
pub struct ScheduleEntry {
    pub address: Pubkey,
    pub account: VestingAccount,
}

/// A grant record together with the address the ledger assigned to it.
#[derive(Clone, Copy, PartialEq, Eq, Structural, Debug)]
pub struct GrantEntry {
    pub address: Pubkey,
    pub account: EmployeeAccount,
}

/// The accounts a caller resolves for `create_vesting_account`: the signing
/// administrator, the asset to vest, the custody account that will hold the
/// reserve, and the derivation salts the storage layer computed for the new
/// addresses.
#[derive(Clone, Copy, PartialEq, Eq, Structural, Debug)]
pub struct CreateVestingAccount {
    pub signer: Pubkey,
    pub mint: Pubkey,
    pub treasury_token_account: Pubkey,
    pub treasury_bump: u8,
    pub bump: u8,
}

/// The accounts a caller resolves for `create_employee_account`: the signing
/// schedule owner, the future beneficiary, the schedule the grant belongs
/// to, and the derivation salt of the grant's address.
#[derive(Clone, Copy, PartialEq, Eq, Structural, Debug)]
pub struct CreateEmployeeAccount {
    pub owner: Pubkey,
    pub beneficiary: Pubkey,
    pub vesting_account: Pubkey,
    pub bump: u8,
}

/// The accounts a caller resolves for `claim_tokens`: the claiming signer,
/// the grant being claimed, and the asset, custody and destination accounts
/// the transfer is to run over. Each is checked against the stored records
/// before any amount is computed.
#[derive(Clone, Copy, PartialEq, Eq, Structural, Debug)]
pub struct ClaimTokens {
    pub beneficiary: Pubkey,
    pub employee_account: Pubkey,
    pub mint: Pubkey,
    pub treasury_token_account: Pubkey,
    pub employee_token_account: Pubkey,
}

/// The transfer a successful claim orders from the custody gateway.
/// The caller must execute it and commit it together with the updated
/// ledger state as one atomic unit: if the transfer fails, the whole
/// operation — ledger update included — must be rolled back.
#[derive(Clone, PartialEq, Eq, Debug)]
pub struct TransferOrder {
    /// The schedule's reserve account the tokens leave.
    pub from: Pubkey,
    /// The beneficiary's token account the tokens arrive at.
    pub to: Pubkey,
    /// The asset being moved.
    pub mint: Pubkey,
    /// How many units to move; always positive.
    pub amount: u64,
    /// First seed of the reserve's derived signing authority.
    pub company_name: String,
    /// Second seed: the derivation salt stored with the schedule.
    pub authority_bump: u8,
}

/// The keyed store holding every schedule and grant record, standing in for
/// the ledger's account table. Addresses are assigned on creation and
/// resolve back to the records; keys — the company name for a schedule,
/// the (beneficiary, schedule) pair for a grant — are unique.
#[derive(Clone, Debug)]
pub struct VestingLedger {
    pub schedules: Vec<ScheduleEntry>,
    pub grants: Vec<GrantEntry>,
}

impl VestingLedger {
    /// Well-formedness of the whole store: addresses resolve to the records
    /// they were assigned to, keys are unique, every grant points at an
    /// existing schedule, and every record satisfies its own invariant —
    /// in particular conservation of each grant's withdrawn total.
    pub open spec fn wf(&self) -> bool {
        &&& forall|i: int|
            0 <= i < self.schedules@.len() ==> (#[trigger] self.schedules@[i]).address.id as int
                == i
        &&& forall|i: int| 0 <= i < self.schedules@.len() ==> (#[trigger] self.schedules@[i]).account.wf()
        &&& forall|i: int, j: int|
            0 <= i < self.schedules@.len() && 0 <= j < self.schedules@.len() && i != j ==> (
            #[trigger] self.schedules@[i]).account.company_name@ != (
            #[trigger] self.schedules@[j]).account.company_name@
        &&& forall|i: int|
            0 <= i < self.grants@.len() ==> (#[trigger] self.grants@[i]).address.id as int == i
        &&& forall|i: int| 0 <= i < self.grants@.len() ==> (#[trigger] self.grants@[i]).account.wf()
        &&& forall|i: int, j: int|
            0 <= i < self.grants@.len() && 0 <= j < self.grants@.len() && i != j ==> !((
            #[trigger] self.grants@[i]).account.beneficiary == (
            #[trigger] self.grants@[j]).account.beneficiary
                && self.grants@[i].account.vesting_account == self.grants@[j].account.vesting_account)
        &&& forall|i: int|
            0 <= i < self.grants@.len() ==> ((#[trigger] self.grants@[i]).account.vesting_account.id
                as int) < self.schedules@.len()
    }

    /// A schedule was created under this company name.
    pub open spec fn has_schedule(&self, name: Seq<char>) -> bool {
        exists|i: int|
            0 <= i < self.schedules@.len() && (#[trigger] self.schedules@[i]).account.company_name@
                == name
    }

    /// The index (equally, the address) of the schedule created under this
    /// company name; meaningful only when `has_schedule` holds.
    pub open spec fn schedule_index_spec(&self, name: Seq<char>) -> int {
        choose|i: int|
            0 <= i < self.schedules@.len() && (#[trigger] self.schedules@[i]).account.company_name@
                == name
    }

    /// A grant was created for this beneficiary under this schedule.
    pub open spec fn has_grant_pair(&self, beneficiary: Pubkey, schedule: Pubkey) -> bool {
        exists|i: int|
            0 <= i < self.grants@.len() && (#[trigger] self.grants@[i]).account.beneficiary
                == beneficiary && self.grants@[i].account.vesting_account == schedule
    }

    /// The first rule a claim against this store breaks, if any, in the
    /// order the checks run: the claimed schedule and grant must exist,
    /// the signer and the supplied asset and custody accounts must match
    /// the stored records, the arithmetic engine must accept the grant at
    /// `now`, and something must be left to pay out.
    pub open spec fn claim_error(&self, ctx: ClaimTokens, name: Seq<char>, now: i64) -> Option<
        ErrorCode,
    > {
        if !self.has_schedule(name) {
            Some(ErrorCode::AccountNotFound)
        } else {
            let sched = self.schedules@[self.schedule_index_spec(name)];
            if (ctx.employee_account.id as int) >= self.grants@.len() {
                Some(ErrorCode::AccountNotFound)
            } else {
                let g = self.grants@[ctx.employee_account.id as int].account;
                if !(g.beneficiary == ctx.beneficiary && g.vesting_account == sched.address
                    && sched.account.mint == ctx.mint && sched.account.treasury_token_account
                    == ctx.treasury_token_account) {
                    Some(ErrorCode::Unauthorized)
                } else {
                    match vested_result(
                        now,
                        g.start_time,
                        g.end_time,
                        g.cliff_time,
                        g.total_amount,
                    ) {
                        Result::Err(e) => Some(e),
                        Result::Ok(v) => if claimable_spec(v, g.total_withdrawn) == 0 {
                            Some(ErrorCode::NothingToClaim)
                        } else {
                            None
                        },
                    }
                }
            }
        }
    }

    /// The amount a claim pays out; meaningful only when `claim_error`
    /// is `None`.
    pub open spec fn claim_amount_spec(&self, ctx: ClaimTokens, now: i64) -> int
        recommends
            (ctx.employee_account.id as int) < self.grants@.len(),
    {
        let g = self.grants@[ctx.employee_account.id as int].account;
        match vested_result(now, g.start_time, g.end_time, g.cliff_time, g.total_amount) {
            Result::Ok(v) => claimable_spec(v, g.total_withdrawn),
            Result::Err(_) => 0,
        }
    }

    /// An empty store: no schedules, no grants.
    pub fn new() -> (r: Self)
        ensures
            r.wf(),
            r.schedules@.len() == 0,
            r.grants@.len() == 0,
    {
        VestingLedger { schedules: Vec::new(), grants: Vec::new() }
    }

    /// Any two indices holding the same company name are the same index,
    /// so a found match is the `schedule_index_spec` match.
    proof fn lemma_schedule_index_agrees(&self, name: Seq<char>, i: int)
        requires
            self.wf(),
            0 <= i < self.schedules@.len(),
            self.schedules@[i].account.company_name@ == name,
        ensures
            self.has_schedule(name),
            self.schedule_index_spec(name) == i,
    {
        assert(self.has_schedule(name));
        let j = self.schedule_index_spec(name);
        assert(0 <= j < self.schedules@.len() && self.schedules@[j].account.company_name@ == name);
    }

    /// Linear scan for the schedule keyed by `company_name`.
    fn find_schedule_index(&self, company_name: &String) -> (r: Option<usize>)
        ensures
            match r {
                Some(i) => i < self.schedules@.len() && self.schedules@[
                    i as int
                ].account.company_name@ == company_name@,
                None => !self.has_schedule(company_name@),
            },
    {
        let n = self.schedules.len();
        let mut i: usize = 0;
        while i < n
            invariant
                n == self.schedules@.len(),
                i <= n,
                forall|j: int|
                    0 <= j < i ==> (#[trigger] self.schedules@[j]).account.company_name@
                        != company_name@,
            decreases n - i,
        {
            if self.schedules[i].account.company_name == *company_name {
                return Some(i);
            }
            i = i + 1;
        }
        None
    }

    /// Linear scan for the grant keyed by the (beneficiary, schedule) pair.
    fn find_grant_index(&self, beneficiary: Pubkey, schedule: Pubkey) -> (r: Option<usize>)
        ensures
            match r {
                Some(i) => i < self.grants@.len() && self.grants@[i as int].account.beneficiary
                    == beneficiary && self.grants@[i as int].account.vesting_account == schedule,
                None => !self.has_grant_pair(beneficiary, schedule),
            },
    {
        let n = self.grants.len();
        let mut i: usize = 0;
        while i < n
            invariant
                n == self.grants@.len(),
                i <= n,
                forall|j: int|
                    0 <= j < i ==> !((#[trigger] self.grants@[j]).account.beneficiary == beneficiary
                        && self.grants@[j].account.vesting_account == schedule),
            decreases n - i,
        {
            if self.grants[i].account.beneficiary == beneficiary && self.grants[i].account.vesting_account == schedule {
                return Some(i);
            }
            i = i + 1;
        }
        None
    }

    /// Re-derives the address of the schedule keyed by `company_name`.
    pub fn schedule_address(&self, company_name: &String) -> (r: Option<Pubkey>)
        requires
            self.wf(),
        ensures
            match r {
                Some(a) => self.has_schedule(company_name@) && a == self.schedules@[
                    self.schedule_index_spec(company_name@)
                ].address,
                None => !self.has_schedule(company_name@),
            },
    {
        match self.find_schedule_index(company_name) {
            Some(i) => {
                proof {
                    self.lemma_schedule_index_agrees(company_name@, i as int);
                }
                Some(self.schedules[i].address)
            },
            None => None,
        }
    }

    /// Re-derives the address of the grant keyed by the
    /// (beneficiary, schedule) pair.
    pub fn grant_address(&self, beneficiary: Pubkey, schedule: Pubkey) -> (r: Option<Pubkey>)
        ensures
            match r {
                Some(a) => self.has_grant_pair(beneficiary, schedule) && (exists|i: int|
                    0 <= i < self.grants@.len() && (#[trigger] self.grants@[i]).address == a
                        && self.grants@[i].account.beneficiary == beneficiary
                        && self.grants@[i].account.vesting_account == schedule),
                None => !self.has_grant_pair(beneficiary, schedule),
            },
    {
        match self.find_grant_index(beneficiary, schedule) {
            Some(i) => {
                proof {
                    assert(self.has_grant_pair(beneficiary, schedule));
                }
                Some(self.grants[i].address)
            },
            None => None,
        }
    }

    /// The schedule record stored at `address`, if any.
    pub fn get_vesting_account(&self, address: Pubkey) -> (r: Option<&VestingAccount>)
        ensures
            match r {
                Some(a) => (address.id as int) < self.schedules@.len() && *a == self.schedules@[
                    address.id as int
                ].account,
                None => (address.id as int) >= self.schedules@.len(),
            },
    {
        if address.id < self.schedules.len() as u64 {
            Some(&self.schedules[address.id as usize].account)
        } else {
            None
        }
    }

    /// The grant record stored at `address`, if any.
    pub fn get_employee_account(&self, address: Pubkey) -> (r: Option<EmployeeAccount>)
        ensures
            match r {
                Some(g) => (address.id as int) < self.grants@.len() && g == self.grants@[
                    address.id as int
                ].account,
                None => (address.id as int) >= self.grants@.len(),
            },
    {
        if address.id < self.grants.len() as u64 {
            Some(self.grants[address.id as usize].account)
        } else {
            None
        }
    }

    /// Creates the per-company schedule record and registers its reserve.
    /// Succeeds exactly when the name fits the record and no schedule
    /// exists under it yet; on success the record is appended unchanged
    /// at a fresh address and nothing else moves.
    pub fn create_vesting_account(&mut self, ctx: CreateVestingAccount, company_name: String) -> (r:
        Result<(), ErrorCode>)
        requires
            old(self).wf(),
        ensures
            final(self).wf(),
            final(self).grants@ == old(self).grants@,
            r is Ok <==> (company_name@.len() <= MAX_COMPANY_NAME_LEN && !old(self).has_schedule(
                company_name@,
            )),
            r is Ok ==> final(self).schedules@ == old(self).schedules@.push(
                (ScheduleEntry {
                    address: (Pubkey { id: old(self).schedules@.len() as u64 }),
                    account: (VestingAccount {
                        owner: ctx.signer,
                        mint: ctx.mint,
                        treasury_token_account: ctx.treasury_token_account,
                        company_name: company_name,
                        treasury_bump: ctx.treasury_bump,
                        bump: ctx.bump,
                    }),
                }),
            ),
            r matches Err(e) ==> *final(self) == *old(self) && e == (if company_name@.len()
                > MAX_COMPANY_NAME_LEN {
                ErrorCode::CompanyNameTooLong
            } else {
                ErrorCode::AlreadyExists
            }),
    {
        if company_name.as_str().unicode_len() > MAX_COMPANY_NAME_LEN {
            return Err(ErrorCode::CompanyNameTooLong);
        }
        match self.find_schedule_index(&company_name) {
            Some(i) => {
                proof {
                    assert(self.has_schedule(company_name@));
                }
                Err(ErrorCode::AlreadyExists)
            },
            None => {
                let address = Pubkey { id: self.schedules.len() as u64 };
                let account = VestingAccount {
                    owner: ctx.signer,
                    mint: ctx.mint,
                    treasury_token_account: ctx.treasury_token_account,
                    company_name,
                    treasury_bump: ctx.treasury_bump,
                    bump: ctx.bump,
                };
                self.schedules.push(ScheduleEntry { address, account });
                Ok(())
            },
        }
    }

    /// Creates the per-employee grant under an existing schedule, with its
    /// withdrawn total at zero. Only the schedule's owner may create it,
    /// and only once per (beneficiary, schedule) pair. The vesting
    /// timestamps and the amount are recorded as given: a malformed period
    /// is not rejected here but at claim time.
    pub fn create_employee_account(
        &mut self,
        ctx: CreateEmployeeAccount,
        start_time: i64,
        end_time: i64,
        total_amount: i64,
        cliff_time: i64,
    ) -> (r: Result<(), ErrorCode>)
        requires
            old(self).wf(),
        ensures
            final(self).wf(),
            final(self).schedules@ == old(self).schedules@,
            ({
                let valid = (ctx.vesting_account.id as int) < old(self).schedules@.len();
                let authorized = valid && old(self).schedules@[
                    ctx.vesting_account.id as int
                ].account.owner == ctx.owner;
                let fresh = !old(self).has_grant_pair(ctx.beneficiary, ctx.vesting_account);
                &&& (r is Ok <==> (valid && authorized && fresh))
                &&& match r {
                    Result::Ok(_) => valid && authorized && fresh && final(self).grants@ == old(
                        self,
                    ).grants@.push(
                        (GrantEntry {
                            address: (Pubkey { id: old(self).grants@.len() as u64 }),
                            account: (EmployeeAccount {
                                beneficiary: ctx.beneficiary,
                                start_time,
                                end_time,
                                cliff_time,
                                vesting_account: ctx.vesting_account,
                                total_amount,
                                total_withdrawn: 0,
                                bump: ctx.bump,
                            }),
                        }),
                    ),
                    Result::Err(e) => *final(self) == *old(self) && (e
                        == ErrorCode::AccountNotFound <==> !valid) && (e == ErrorCode::Unauthorized
                        <==> (valid && !authorized)) && (e == ErrorCode::AlreadyExists <==> (valid
                        && authorized && !fresh)),
                }
            }),
    {
        if ctx.vesting_account.id >= self.schedules.len() as u64 {
            return Err(ErrorCode::AccountNotFound);
        }
        if self.schedules[ctx.vesting_account.id as usize].account.owner != ctx.owner {
            return Err(ErrorCode::Unauthorized);
        }
        match self.find_grant_index(ctx.beneficiary, ctx.vesting_account) {
            Some(i) => {
                proof {
                    assert(self.has_grant_pair(ctx.beneficiary, ctx.vesting_account));
                }
                Err(ErrorCode::AlreadyExists)
            },
            None => {
                let entry = GrantEntry {
                    address: Pubkey { id: self.grants.len() as u64 },
                    account: EmployeeAccount {
                        beneficiary: ctx.beneficiary,
                        start_time,
                        end_time,
                        cliff_time,
                        vesting_account: ctx.vesting_account,
                        total_amount,
                        total_withdrawn: 0,
                        bump: ctx.bump,
                    },
                };
                self.grants.push(entry);
                Ok(())
            },
        }
    }

    /// Processes a claim: checks that the supplied accounts bind to the
    /// stored schedule and grant, computes the claimable amount at `now`,
    /// records it as withdrawn, and returns the transfer the custody
    /// gateway must execute. The returned order and the state update form
    /// one atomic unit for the caller. A failed claim changes nothing, and
    /// fails with exactly the first broken rule of `claim_error`; a
    /// successful claim leaves nothing more to claim at the same `now`.
    pub fn claim_tokens(&mut self, ctx: ClaimTokens, company_name: &String, now: i64) -> (r: Result<
        TransferOrder,
        ErrorCode,
    >)
        requires
            old(self).wf(),
        ensures
            final(self).wf(),
            final(self).schedules@ == old(self).schedules@,
            r is Ok <==> old(self).claim_error(ctx, company_name@, now) is None,
            match r {
                Result::Err(e) => old(self).claim_error(ctx, company_name@, now) == Some(e)
                    && *final(self) == *old(self),
                Result::Ok(order) => ({
                    let sched = old(self).schedules@[old(self).schedule_index_spec(company_name@)];
                    let gi = ctx.employee_account.id as int;
                    let g = old(self).grants@[gi].account;
                    let amount = old(self).claim_amount_spec(ctx, now);
                    &&& amount > 0
                    &&& order.amount as int == amount
                    &&& order.from == sched.account.treasury_token_account
                    &&& order.to == ctx.employee_token_account
                    &&& order.mint == sched.account.mint
                    &&& order.company_name@ == company_name@
                    &&& order.authority_bump == sched.account.treasury_bump
                    &&& final(self).grants@ == old(self).grants@.update(
                        gi,
                        (GrantEntry {
                            address: old(self).grants@[gi].address,
                            account: (EmployeeAccount {
                                total_withdrawn: (g.total_withdrawn + amount) as i64,
                                ..g
                            }),
                        }),
                    )
                }),
            },
            r is Ok ==> final(self).claim_error(ctx, company_name@, now) == Some(
                ErrorCode::NothingToClaim,
            ),
    {
        let si = match self.find_schedule_index(company_name) {
            Some(i) => i,
            None => { return Err(ErrorCode::AccountNotFound) },
        };
        proof {
            self.lemma_schedule_index_agrees(company_name@, si as int);
        }
        if ctx.employee_account.id >= self.grants.len() as u64 {
            return Err(ErrorCode::AccountNotFound);
        }
        let gi = ctx.employee_account.id as usize;
        let grant = self.grants[gi].account;
        let authorized = grant.beneficiary == ctx.beneficiary && grant.vesting_account
            == self.schedules[si].address && self.schedules[si].account.mint == ctx.mint
            && self.schedules[si].account.treasury_token_account == ctx.treasury_token_account;
        if !authorized {
            return Err(ErrorCode::Unauthorized);
        }
        let vested = match vested_amount(
            now,
            grant.start_time,
            grant.end_time,
            grant.cliff_time,
            grant.total_amount,
        ) {
            Ok(v) => v,
            Err(e) => { return Err(e) },
        };
        let claimable = claimable_amount(vested, grant.total_withdrawn);
        if claimable == 0 {
            return Err(ErrorCode::NothingToClaim);
        }
        proof {
            assert(self.grants@[gi as int].account.wf());
            lemma_vested_in_range(
                now,
                grant.start_time,
                grant.end_time,
                grant.cliff_time,
                grant.total_amount,
                vested,
            );
            assert(grant.total_withdrawn + claimable == vested as int);
        }
        let updated = grant.total_withdrawn + claimable;
        let order = TransferOrder {
            from: self.schedules[si].account.treasury_token_account,
            to: ctx.employee_token_account,
            mint: self.schedules[si].account.mint,
            amount: claimable as u64,
            company_name: self.schedules[si].account.company_name.clone(),
            authority_bump: self.schedules[si].account.treasury_bump,
        };
        self.grants[gi].account.total_withdrawn = updated;
        proof {
            let post = *self;
            let pre = *old(self);
            assert forall|k: int| 0 <= k < post.grants@.len() implies (#[trigger] post.grants@[k]).address.id as int == k
                && post.grants@[k].account.wf()
                && ((post.grants@[k].account.vesting_account.id as int) < post.schedules@.len()) by {
                assert(pre.grants@[k].address.id as int == k);
                assert(pre.grants@[k].account.wf());
            }
            assert forall|k: int, l: int|
                0 <= k < post.grants@.len() && 0 <= l < post.grants@.len() && k != l implies !((
            #[trigger] post.grants@[k]).account.beneficiary == (
            #[trigger] post.grants@[l]).account.beneficiary
                && post.grants@[k].account.vesting_account
                == post.grants@[l].account.vesting_account) by {
                assert(!(pre.grants@[k].account.beneficiary == pre.grants@[l].account.beneficiary
                    && pre.grants@[k].account.vesting_account
                    == pre.grants@[l].account.vesting_account));
            }
            assert(post.wf());
            self.lemma_schedule_index_agrees(company_name@, si as int);
            assert(post.claim_error(ctx, company_name@, now) == Some(ErrorCode::NothingToClaim));
        }
        Ok(order)
    }
}

/// Conservation, read off any well-formed store — hence off every store an
/// operation of this module has returned: a grant's recorded withdrawn
/// total is never negative and never exceeds a non-negative allocation.
pub proof fn lemma_conservation(ledger: &VestingLedger, i: int)
    requires
        ledger.wf(),
        0 <= i < ledger.grants@.len(),
    ensures
        0 <= ledger.grants@[i].account.total_withdrawn,
        ledger.grants@[i].account.total_amount >= 0 ==> ledger.grants@[i].account.total_withdrawn
            <= ledger.grants@[i].account.total_amount,
{
    assert(ledger.grants@[i].account.wf());
}

/// An unauthorized claim is rejected before any amount arithmetic runs:
/// whenever the signer or a supplied account does not match the stored
/// records, the claim fails with `Unauthorized`, whatever `now` is.
pub proof fn lemma_unauthorized_claim_rejected(
    ledger: &VestingLedger,
    ctx: ClaimTokens,
    name: Seq<char>,
    now: i64,
)
    requires
        ledger.has_schedule(name),
        (ctx.employee_account.id as int) < ledger.grants@.len(),
        ({
            let sched = ledger.schedules@[ledger.schedule_index_spec(name)];
            let g = ledger.grants@[ctx.employee_account.id as int].account;
            !(g.beneficiary == ctx.beneficiary && g.vesting_account == sched.address
                && sched.account.mint == ctx.mint && sched.account.treasury_token_account
                == ctx.treasury_token_account)
        }),
    ensures
        ledger.claim_error(ctx, name, now) == Some(ErrorCode::Unauthorized),
{
}

/// The cliff gates every authorized claim: before the grant's cliff
/// timestamp the claim fails with `TooEarlyToClaim`, regardless of the
/// other grant parameters.
pub proof fn lemma_claim_before_cliff_rejected(
    ledger: &VestingLedger,
    ctx: ClaimTokens,
    name: Seq<char>,
    now: i64,
)
    requires
        ledger.has_schedule(name),
        (ctx.employee_account.id as int) < ledger.grants@.len(),
        now < ledger.grants@[ctx.employee_account.id as int].account.cliff_time,
    ensures
        ledger.claim_error(ctx, name, now) is Some,
        ledger.claim_error(ctx, name, now) == Some(ErrorCode::Unauthorized) || ledger.claim_error(
            ctx,
            name,
            now,
        ) == Some(ErrorCode::TooEarlyToClaim),
{
}

} // verus!
