use vstd::prelude::*;

use crate::error::EngineError;
use crate::money::Money;

verus! {

/// The side of a ledger entry.
#[derive(Debug, Clone, Copy, PartialEq, Eq, Structural)]
pub enum Side {
    Debit,
    Credit,
}

/// An account that ledger entries are posted against.
#[derive(Debug, Clone, PartialEq, Eq)]
pub enum Account {
    /// Where gateway funds sit before they are paid out.
    GatewayClearing,
    /// What is owed to the campground with the given id.
    CampgroundPayable(String),
}

/// One side of a posting.
#[derive(Debug, Clone)]
pub struct LedgerEntry {
    pub account: Account,
    pub side: Side,
    pub amount_cents: Money,
    /// The payout or payment the entry belongs to.
    pub reference: String,
    /// Seconds since the Unix epoch.
    pub created_at: i64,
}

/// A matched debit and credit of one amount: the only unit the ledger emits.
#[derive(Debug, Clone)]
pub struct LedgerPosting {
    pub debit: LedgerEntry,
    pub credit: LedgerEntry,
}

impl LedgerPosting {
    /// A posting is well formed when its debit is a debit, its credit a
    /// credit, and both carry the same positive amount and the same reference.
    pub open spec fn wf(&self) -> bool {
        &&& self.debit.side == Side::Debit
        &&& self.credit.side == Side::Credit
        &&& self.debit.amount_cents == self.credit.amount_cents
        &&& self.debit.amount_cents > 0
        &&& self.debit.reference@ == self.credit.reference@
        &&& self.debit.created_at == self.credit.created_at
    }
}

/// The total of the debit amounts of a sequence of postings.
pub open spec fn sum_debits(s: Seq<LedgerPosting>) -> int
    decreases s.len(),
{
    if s.len() == 0 {
        0
    } else {
        sum_debits(s.drop_last()) + s.last().debit.amount_cents
    }
}

/// The total of the credit amounts of a sequence of postings.
pub open spec fn sum_credits(s: Seq<LedgerPosting>) -> int
    decreases s.len(),
{
    if s.len() == 0 {
        0
    } else {
        sum_credits(s.drop_last()) + s.last().credit.amount_cents
    }
}

/// Every posting puts its debit entry on the debit side and its credit entry
/// on the credit side.
pub open spec fn sides_correct(s: Seq<LedgerPosting>) -> bool {
    forall|i: int|
        0 <= i < s.len() ==> (#[trigger] s[i]).debit.side == Side::Debit && s[i].credit.side
            == Side::Credit
}

/// A sequence of postings balances when the sides are right and the debits
/// total the credits.
pub open spec fn postings_balanced(s: Seq<LedgerPosting>) -> bool {
    sides_correct(s) && sum_debits(s) == sum_credits(s)
}

/// The posting of `amount` from `credit_account` to `debit_account`.
pub open spec fn posting_of(
    amount: Money,
    debit_account: Account,
    credit_account: Account,
    reference: String,
    created_at: i64,
) -> LedgerPosting {
    LedgerPosting {
        debit: LedgerEntry {
            account: debit_account,
            side: Side::Debit,
            amount_cents: amount,
            reference,
            created_at,
        },
        credit: LedgerEntry {
            account: credit_account,
            side: Side::Credit,
            amount_cents: amount,
            reference,
            created_at,
        },
    }
}

/// Records `amount_cents` moving out of `credit_account` into `debit_account`.
///
/// Both entries are built from the one amount, so the posting balances by
/// construction. A non-positive amount is refused with `InvalidAmount`.
pub fn post(
    amount_cents: Money,
    debit_account: Account,
    credit_account: Account,
    reference: String,
    created_at: i64,
) -> (r: Result<LedgerPosting, EngineError>)
    ensures
        amount_cents <= 0 ==> r == Err::<LedgerPosting, EngineError>(EngineError::InvalidAmount),
        amount_cents > 0 ==> (r matches Ok(p) && p.wf() && p == posting_of(
            amount_cents,
            debit_account,
            credit_account,
            reference,
            created_at,
        )),
{
    if amount_cents <= 0 {
        return Err(EngineError::InvalidAmount);
    }
    let debit = LedgerEntry {
        account: debit_account,
        side: Side::Debit,
        amount_cents,
        reference: reference.clone(),
        created_at,
    };
    let credit = LedgerEntry {
        account: credit_account,
        side: Side::Credit,
        amount_cents,
        reference,
        created_at,
    };
    Ok(LedgerPosting { debit, credit })
}

/// Whether `postings` balance: each entry on its own side, and the debits
/// totalling the credits.
pub fn is_balanced(postings: &Vec<LedgerPosting>) -> (r: bool)
    ensures
        r == postings_balanced(postings@),
{
    let n = postings.len();
    let mut debits: i128 = 0;
    let mut credits: i128 = 0;
    let mut sides_ok = true;
    let mut i: usize = 0;
    while i < n
        invariant
            n == postings@.len(),
            0 <= i <= n,
            debits == sum_debits(postings@.subrange(0, i as int)),
            credits == sum_credits(postings@.subrange(0, i as int)),
            -(i as int) * 0x8000_0000_0000_0000 <= debits <= (i as int) * 0x8000_0000_0000_0000,
            -(i as int) * 0x8000_0000_0000_0000 <= credits <= (i as int) * 0x8000_0000_0000_0000,
            sides_ok == sides_correct(postings@.subrange(0, i as int)),
        decreases n - i,
    {
        let p = &postings[i];
        proof {
            let next = postings@.subrange(0, i as int + 1);
            assert(next.drop_last() =~= postings@.subrange(0, i as int));
            assert(next.last() == postings@[i as int]);
            assert((i as int + 1) * 0x8000_0000_0000_0000 <= 0x8000_0000_0000_0000_0000_0000_0000_0000
                - 0x8000_0000_0000_0000) by (nonlinear_arith)
                requires
                    i < n,
                    n <= usize::MAX,
            ;
            assert((i as int + 1) * 0x8000_0000_0000_0000 == (i as int) * 0x8000_0000_0000_0000
                + 0x8000_0000_0000_0000) by (nonlinear_arith);
        }
        debits = debits + p.debit.amount_cents as i128;
        credits = credits + p.credit.amount_cents as i128;
        let here = p.debit.side == Side::Debit && p.credit.side == Side::Credit;
        proof {
            let prev = postings@.subrange(0, i as int);
            let next = postings@.subrange(0, i as int + 1);
            assert forall|j: int| 0 <= j < next.len() implies #[trigger] next[j] == if j < i {
                prev[j]
            } else {
                postings@[i as int]
            } by {}
            assert(sides_correct(next) == (sides_ok && here));
        }
        sides_ok = sides_ok && here;
        i = i + 1;
    }
    proof {
        assert(postings@.subrange(0, n as int) =~= postings@);
    }
    sides_ok && debits == credits
}

/// For every sequence of well-formed postings the debits total the credits.
pub proof fn lemma_postings_balance(s: Seq<LedgerPosting>)
    requires
        forall|i: int| 0 <= i < s.len() ==> (#[trigger] s[i]).wf(),
    ensures
        postings_balanced(s),
    decreases s.len(),
{
    if s.len() > 0 {
        let prefix = s.drop_last();
        assert forall|i: int| 0 <= i < prefix.len() implies (#[trigger] prefix[i]).wf() by {
            assert(prefix[i] == s[i]);
        }
        lemma_postings_balance(prefix);
        assert(s.last() == s[s.len() - 1]);
    }
}

} // verus!
