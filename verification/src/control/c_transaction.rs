//! Validation, text reading and checked arithmetic of transactions.

use crate::entity::{
    EAtm, ETransaction, ETransactionOutcome, EnumTransactionKind, EnumTransactionStatus,
    OutcomeView, StatusView,
};
use crate::text::{
    chars_of, i64_text, int_error_message, int_error_text, int_text, is_digit, is_white_space,
    joined, lemma_int_text_round_trip, lemma_scan_nat_text_digits, lemma_trimmed_plain,
    lower_text, nat_text, parse_i64, parse_int, str_eq, to_ascii_lower, trim, trimmed,
    EIntErrorKind,
};
use vstd::prelude::*;

verus! {

// ---------------------------------------------------------------------------
// Specification
// ---------------------------------------------------------------------------

/// Message for a non-positive amount given to a request.
pub open spec fn amount_error_text(amount: int) -> Seq<char> {
    "l’importo deve essere positivo, ricevuto "@ + int_text(amount)
}

/// The request that [`CTransaction::build`] makes, or its message.
pub open spec fn build_result(kind: EnumTransactionKind, amount: int) -> Result<
    ETransaction,
    Seq<char>,
> {
    if amount <= 0 {
        Err(amount_error_text(amount))
    } else {
        Ok(ETransaction { kind, amount: amount as i64 })
    }
}

/// Reason of a withdrawal larger than the balance.
pub open spec fn insufficient_funds_text(balance: int, amount: int) -> Seq<char> {
    "fondi insufficienti: saldo "@ + int_text(balance) + ", importo richiesto "@ + int_text(
        amount,
    )
}

/// Balance after an attempt of `t` on `balance`.
pub open spec fn applied_balance(balance: int, t: ETransaction) -> int {
    if balance < 0 || t.amount <= 0 {
        balance
    } else {
        match t.kind {
            EnumTransactionKind::Deposit => if balance + t.amount <= i64::MAX {
                balance + t.amount
            } else {
                balance
            },
            EnumTransactionKind::Withdrawal => if t.amount <= balance {
                balance - t.amount
            } else {
                balance
            },
        }
    }
}

/// Status of an attempt of `t` on `balance`.
pub open spec fn applied_status(balance: int, t: ETransaction) -> StatusView {
    if balance < 0 {
        StatusView::Rejected("il saldo deve essere non negativo"@)
    } else if t.amount <= 0 {
        StatusView::Rejected("l’importo deve essere positivo"@)
    } else {
        match t.kind {
            EnumTransactionKind::Deposit => if balance + t.amount <= i64::MAX {
                StatusView::Completed
            } else {
                StatusView::Rejected("il deposito causerebbe overflow del saldo"@)
            },
            EnumTransactionKind::Withdrawal => if t.amount <= balance {
                StatusView::Completed
            } else {
                StatusView::Rejected(insufficient_funds_text(balance, t.amount as int))
            },
        }
    }
}

/// The record of an attempt of `t` by `atm` on `balance`.
pub open spec fn applied_outcome(atm: Seq<char>, balance: i64, t: ETransaction) -> OutcomeView {
    OutcomeView {
        atm,
        transaction: t,
        previous_balance: balance,
        new_balance: applied_balance(balance as int, t) as i64,
        status: applied_status(balance as int, t),
    }
}

/// Index of the first occurrence of `c` in `s`.
pub open spec fn first_index(s: Seq<char>, c: char) -> Option<int>
    decreases s.len(),
{
    if s.len() == 0 {
        None
    } else if s[0] == c {
        Some(0)
    } else {
        match first_index(s.drop_first(), c) {
            Some(i) => Some(i + 1),
            None => None,
        }
    }
}

/// Where a request text splits into operation and amount: the first `:`, or else
/// the first `=`.
pub open spec fn split_point(s: Seq<char>) -> Option<int> {
    match first_index(s, ':') {
        Some(i) => Some(i),
        None => first_index(s, '='),
    }
}

/// Message for a request text without a separator.
pub open spec fn malformed_text(t: Seq<char>) -> Seq<char> {
    "transazione '"@ + t + "' non valida: atteso deposit:100 oppure withdraw:100"@
}

/// Message for an amount that is not an `i64`.
pub open spec fn bad_amount_text(raw: Seq<char>, e: EIntErrorKind) -> Seq<char> {
    "importo '"@ + raw + "' non valido: "@ + int_error_text(e)
}

/// Message for an unknown operation name.
pub open spec fn unknown_operation_text(name: Seq<char>) -> Seq<char> {
    "operazione '"@ + name + "' non valida: atteso deposit oppure withdraw"@
}

/// The request that a text such as `deposit:100` or `withdraw=75` names, or the
/// message that refuses it.
pub open spec fn parsed_transaction(value: Seq<char>) -> Result<ETransaction, Seq<char>> {
    let t = trimmed(value);
    match split_point(t) {
        None => Err(malformed_text(t)),
        Some(i) => {
            let raw_kind = t.take(i);
            let raw_amount = t.skip(i + 1);
            match parse_int(trimmed(raw_amount)) {
                Err(e) => Err(bad_amount_text(raw_amount, e)),
                Ok(amount) => {
                    let name = lower_text(trimmed(raw_kind));
                    if name == "deposit"@ || name == "dep"@ {
                        build_result(EnumTransactionKind::Deposit, amount)
                    } else if name == "withdraw"@ || name == "withdrawal"@ || name == "wd"@ {
                        build_result(EnumTransactionKind::Withdrawal, amount)
                    } else {
                        Err(unknown_operation_text(name))
                    }
                },
            }
        },
    }
}

proof fn lemma_first_index(s: Seq<char>, c: char, i: int)
    requires
        0 <= i <= s.len(),
        forall|k: int| 0 <= k < i ==> #[trigger] s[k] != c,
        i == s.len() || s[i] == c,
    ensures
        first_index(s, c) == (if i == s.len() {
            None
        } else {
            Some(i)
        }),
    decreases i,
{
    if i > 0 {
        let t = s.drop_first();
        assert forall|k: int| 0 <= k < i - 1 implies #[trigger] t[k] != c by {
            assert(t[k] == s[k + 1]);
        }
        if i < s.len() {
            assert(t[i - 1] == s[i]);
        }
        lemma_first_index(t, c, i - 1);
    }
}

// ---------------------------------------------------------------------------
// Rules
// ---------------------------------------------------------------------------

/// Rules to validate, read and apply banking operations.
pub struct CTransaction;

impl CTransaction {
    /// Builds a deposit request.
    ///
    /// # Errors
    /// The amount must be strictly positive, as in [`Self::build`].
    pub fn deposit(amount: i64) -> (r: Result<ETransaction, String>)
        ensures
            match r {
                Ok(t) => build_result(EnumTransactionKind::Deposit, amount as int) == Ok::<
                    ETransaction,
                    Seq<char>,
                >(t),
                Err(e) => build_result(EnumTransactionKind::Deposit, amount as int) == Err::<
                    ETransaction,
                    Seq<char>,
                >(e@),
            },
    {
        Self::build(EnumTransactionKind::Deposit, amount)
    }

    /// Builds a withdrawal request.
    ///
    /// # Errors
    /// The amount must be strictly positive. Whether the balance covers it is checked
    /// only when the request runs, while the node holds the token.
    pub fn withdrawal(amount: i64) -> (r: Result<ETransaction, String>)
        ensures
            match r {
                Ok(t) => build_result(EnumTransactionKind::Withdrawal, amount as int) == Ok::<
                    ETransaction,
                    Seq<char>,
                >(t),
                Err(e) => build_result(EnumTransactionKind::Withdrawal, amount as int) == Err::<
                    ETransaction,
                    Seq<char>,
                >(e@),
            },
    {
        Self::build(EnumTransactionKind::Withdrawal, amount)
    }

    /// Builds a request of the given kind and amount.
    ///
    /// # Errors
    /// Refuses zero and negative amounts. The balance plays no part at this stage.
    pub fn build(kind: EnumTransactionKind, amount: i64) -> (r: Result<ETransaction, String>)
        ensures
            match r {
                Ok(t) => build_result(kind, amount as int) == Ok::<ETransaction, Seq<char>>(t),
                Err(e) => build_result(kind, amount as int) == Err::<ETransaction, Seq<char>>(
                    e@,
                ),
            },
    {
        if amount <= 0 {
            let digits = i64_text(amount);
            return Err(joined(String::from_str("l’importo deve essere positivo, ricevuto "), digits.as_str()));
        }
        Ok(ETransaction { kind, amount })
    }

    /// Computes the new balance and returns the record of the attempt.
    ///
    /// Amount and balance are checked again, also for entities built without the
    /// parser. Integer arithmetic is checked. Insufficient funds, overflow and invalid
    /// domain values give `Rejected` and keep the received balance. The function
    /// neither logs nor locks: the caller must hold the token through reading,
    /// applying, writing and recording the outcome.
    pub fn apply(atm: &EAtm, balance: i64, transaction: ETransaction) -> (r: (
        i64,
        ETransactionOutcome,
    ))
        ensures
            r.0 == applied_balance(balance as int, transaction),
            r.1@ == applied_outcome(atm@, balance, transaction),
    {
        let (new_balance, status) = if balance < 0 {
            (
                balance,
                EnumTransactionStatus::Rejected {
                    reason: String::from_str("il saldo deve essere non negativo"),
                },
            )
        } else if transaction.amount <= 0 {
            (
                balance,
                EnumTransactionStatus::Rejected {
                    reason: String::from_str("l’importo deve essere positivo"),
                },
            )
        } else {
            match transaction.kind {
                EnumTransactionKind::Deposit => match balance.checked_add(transaction.amount) {
                    Some(value) => (value, EnumTransactionStatus::Completed),
                    None => (
                        balance,
                        EnumTransactionStatus::Rejected {
                            reason: String::from_str("il deposito causerebbe overflow del saldo"),
                        },
                    ),
                },
                EnumTransactionKind::Withdrawal => if transaction.amount <= balance {
                    (balance - transaction.amount, EnumTransactionStatus::Completed)
                } else {
                    (
                        balance,
                        EnumTransactionStatus::Rejected {
                            reason: Self::insufficient_funds(balance, transaction.amount),
                        },
                    )
                },
            }
        };
        let outcome = ETransactionOutcome {
            atm: atm.duplicate(),
            transaction,
            previous_balance: balance,
            new_balance,
            status,
        };
        (new_balance, outcome)
    }

    /// Returns `true` when the attempt changed the balance successfully.
    pub fn is_completed(outcome: &ETransactionOutcome) -> (r: bool)
        ensures
            r == (outcome@.status is Completed),
    {
        match outcome.status {
            EnumTransactionStatus::Completed => true,
            EnumTransactionStatus::Rejected { .. } => false,
        }
    }

    /// Reads a request written as `deposit:100`, `withdraw=75` and the like.
    ///
    /// The operation may be `deposit` or `dep`, `withdraw`, `withdrawal` or `wd`, in
    /// any case; white space around the parts is ignored.
    ///
    /// # Errors
    /// Refuses a text without `:` or `=`, an amount that is not an `i64`, an unknown
    /// operation and a non-positive amount, each with its own message.
    pub fn parse(value: &str) -> (r: Result<ETransaction, String>)
        ensures
            match r {
                Ok(t) => parsed_transaction(value@) == Ok::<ETransaction, Seq<char>>(t),
                Err(e) => parsed_transaction(value@) == Err::<ETransaction, Seq<char>>(e@),
            },
    {
        let trimmed_value = trim(value);
        let cs = chars_of(trimmed_value);
        let n = cs.len();
        let mut i: usize = 0;
        while i < n && cs[i] != ':'
            invariant
                cs@ == trimmed(value@),
                n == cs.len(),
                i <= n,
                forall|k: int| 0 <= k < i ==> #[trigger] cs@[k] != ':',
            decreases n - i,
        {
            i = i + 1;
        }
        proof {
            lemma_first_index(cs@, ':', i as int);
        }
        if i == n {
            i = 0;
            while i < n && cs[i] != '='
                invariant
                    cs@ == trimmed(value@),
                    n == cs.len(),
                    i <= n,
                    forall|k: int| 0 <= k < i ==> #[trigger] cs@[k] != '=',
                decreases n - i,
            {
                i = i + 1;
            }
            proof {
                lemma_first_index(cs@, '=', i as int);
            }
            if i == n {
                let head = joined(String::from_str("transazione '"), trimmed_value);
                return Err(
                    joined(head, "' non valida: atteso deposit:100 oppure withdraw:100"),
                );
            }
        }
        assert(split_point(cs@) == Some(i as int));
        let raw_kind = trimmed_value.substring_char(0, i);
        let raw_amount = trimmed_value.substring_char(i + 1, n);
        assert(raw_kind@ == cs@.take(i as int));
        assert(raw_amount@ == cs@.skip(i + 1));
        let amount = match parse_i64(trim(raw_amount)) {
            Ok(v) => v,
            Err(e) => {
                let head = joined(String::from_str("importo '"), raw_amount);
                let head = joined(head, "' non valido: ");
                let words = int_error_message(e);
                return Err(joined(head, words.as_str()));
            },
        };
        let name = to_ascii_lower(trim(raw_kind));
        if str_eq(name.as_str(), "deposit") || str_eq(name.as_str(), "dep") {
            Self::deposit(amount)
        } else if str_eq(name.as_str(), "withdraw") || str_eq(name.as_str(), "withdrawal")
            || str_eq(name.as_str(), "wd") {
            Self::withdrawal(amount)
        } else {
            let head = joined(String::from_str("operazione '"), name.as_str());
            Err(joined(head, "' non valida: atteso deposit oppure withdraw"))
        }
    }

    /// Reason of a withdrawal larger than the balance.
    fn insufficient_funds(balance: i64, amount: i64) -> (r: String)
        ensures
            r@ == insufficient_funds_text(balance as int, amount as int),
    {
        let b = i64_text(balance);
        let a = i64_text(amount);
        let head = joined(String::from_str("fondi insufficienti: saldo "), b.as_str());
        let head = joined(head, ", importo richiesto ");
        joined(head, a.as_str())
    }
}

impl std::str::FromStr for ETransaction {
    type Err = String;

    fn from_str(value: &str) -> (r: Result<Self, Self::Err>)
        ensures
            match r {
                Ok(t) => parsed_transaction(value@) == Ok::<ETransaction, Seq<char>>(t),
                Err(e) => parsed_transaction(value@) == Err::<ETransaction, Seq<char>>(e@),
            },
    {
        CTransaction::parse(value)
    }
}

// ---------------------------------------------------------------------------
// Laws
// ---------------------------------------------------------------------------

/// An attempt either completes with the arithmetic result of the operation, or is
/// rejected and leaves the balance as it was; from a non-negative balance the
/// balance stays non-negative.
pub proof fn lemma_apply_conserves(balance: i64, t: ETransaction)
    ensures
        applied_status(balance as int, t) is Completed ==> (match t.kind {
            EnumTransactionKind::Deposit => applied_balance(balance as int, t) == balance + t.amount,
            EnumTransactionKind::Withdrawal => applied_balance(balance as int, t) == balance
                - t.amount,
        }),
        !(applied_status(balance as int, t) is Completed) ==> applied_balance(balance as int, t)
            == balance,
        balance >= 0 ==> 0 <= applied_balance(balance as int, t) <= i64::MAX,
{
}

/// A completed deposit followed by a withdrawal of the same amount gives the
/// starting balance back.
pub proof fn lemma_deposit_then_withdrawal(balance: i64, amount: i64)
    requires
        applied_status(
            balance as int,
            ETransaction { kind: EnumTransactionKind::Deposit, amount },
        ) is Completed,
    ensures
        ({
            let after = applied_balance(
                balance as int,
                ETransaction { kind: EnumTransactionKind::Deposit, amount },
            );
            &&& applied_status(
                after,
                ETransaction { kind: EnumTransactionKind::Withdrawal, amount },
            ) is Completed
            &&& applied_balance(
                after,
                ETransaction { kind: EnumTransactionKind::Withdrawal, amount },
            ) == balance
        }),
{
}

/// Whether `name`, trimmed and lower-cased, is one of the withdrawal names
/// `withdraw`, `withdrawal`, `wd`.
pub open spec fn is_withdrawal_name(name: Seq<char>) -> bool {
    let k = lower_text(trimmed(name));
    k == "withdraw"@ || k == "withdrawal"@ || k == "wd"@
}

/// Whether `name`, trimmed and lower-cased, is one of the deposit names `deposit`, `dep`.
pub open spec fn is_deposit_name(name: Seq<char>) -> bool {
    let k = lower_text(trimmed(name));
    k == "deposit"@ || k == "dep"@
}

/// A request text `<name>:<n>` or `<name>=<n>` with a positive amount `n` is read as a
/// withdrawal of `n` exactly when the name is a withdrawal name in any letter case, as
/// a deposit of `n` exactly when it is a deposit name, and is refused otherwise; the
/// amount read is always `n`.
pub proof fn lemma_parse_names_kind(name: Seq<char>, separator: char, n: i64)
    requires
        separator == ':' || separator == '=',
        n > 0,
        name.len() > 0,
        !is_white_space(name[0]),
        !name.contains(':'),
        !name.contains('='),
    ensures
        ({
            let r = parsed_transaction(name + seq![separator] + int_text(n as int));
            &&& is_withdrawal_name(name) ==> r == Ok::<ETransaction, Seq<char>>(
                ETransaction { kind: EnumTransactionKind::Withdrawal, amount: n },
            )
            &&& is_deposit_name(name) ==> r == Ok::<ETransaction, Seq<char>>(
                ETransaction { kind: EnumTransactionKind::Deposit, amount: n },
            )
            &&& r is Ok <==> is_withdrawal_name(name) || is_deposit_name(name)
            &&& r matches Ok(t) ==> t.amount == n && (t.kind == EnumTransactionKind::Withdrawal
                <==> is_withdrawal_name(name))
        }),
{
    let digits = int_text(n as int);
    let value = name + seq![separator] + digits;
    lemma_scan_nat_text_digits(n as nat);
    assert(digits == nat_text(n as nat));
    assert(value.last() == digits.last());
    assert(value[0] == name[0]);
    lemma_trimmed_plain(value);
    lemma_trimmed_plain(digits);
    let i = name.len() as int;
    assert(value[i] == separator);
    assert forall|k: int| 0 <= k < i implies #[trigger] value[k] != ':' && value[k] != '=' by {
        assert(value[k] == name[k]);
        if value[k] == ':' {
            assert(name.contains(':'));
        }
        if value[k] == '=' {
            assert(name.contains('='));
        }
    }
    if separator == ':' {
        lemma_first_index(value, ':', i);
    } else {
        assert forall|k: int| 0 <= k < value.len() implies #[trigger] value[k] != ':' by {
            if k > i {
                assert(value[k] == digits[k - i - 1]);
                assert(is_digit(digits[k - i - 1]));
            }
        }
        lemma_first_index(value, ':', value.len() as int);
        lemma_first_index(value, '=', i);
    }
    assert(split_point(value) == Some(i));
    assert(value.take(i) == name);
    assert(value.skip(i + 1) == digits);
    lemma_int_text_round_trip(n as int);
    reveal_strlit("withdraw");
    reveal_strlit("withdrawal");
    reveal_strlit("wd");
    reveal_strlit("deposit");
    reveal_strlit("dep");
    assert(trimmed(value) == value);
    assert(trimmed(digits) == digits);
    assert(parse_int(trimmed(digits)) == Ok::<int, EIntErrorKind>(n as int));
    let k = lower_text(trimmed(name));
    assert("withdraw"@.len() == 8);
    assert("withdrawal"@.len() == 10);
    assert("wd"@.len() == 2);
    assert("deposit"@.len() == 7);
    assert("dep"@.len() == 3);
    assert(is_withdrawal_name(name) ==> !is_deposit_name(name));
    assert(parsed_transaction(value) == (if k == "deposit"@ || k == "dep"@ {
        build_result(EnumTransactionKind::Deposit, n as int)
    } else if k == "withdraw"@ || k == "withdrawal"@ || k == "wd"@ {
        build_result(EnumTransactionKind::Withdrawal, n as int)
    } else {
        Err(unknown_operation_text(k))
    }));
}

/// An attempt on a non-negative balance with a positive amount completes whenever the
/// arithmetic allows it: a deposit exactly when the sum stays within `i64`, a
/// withdrawal exactly when the balance covers the amount; then the balance moves by
/// the amount, and a refused attempt leaves it as it was.
pub proof fn lemma_apply_completes_when_possible(balance: i64, t: ETransaction)
    requires
        balance >= 0,
        t.amount > 0,
    ensures
        t.kind == EnumTransactionKind::Deposit ==> (applied_status(balance as int, t) is Completed
            <==> balance + t.amount <= i64::MAX),
        t.kind == EnumTransactionKind::Withdrawal ==> (applied_status(balance as int, t) is Completed
            <==> t.amount <= balance),
        t.kind == EnumTransactionKind::Deposit && balance + t.amount <= i64::MAX
            ==> applied_balance(balance as int, t) == balance + t.amount,
        t.kind == EnumTransactionKind::Withdrawal && t.amount <= balance ==> applied_balance(
            balance as int,
            t,
        ) == balance - t.amount,
        !(applied_status(balance as int, t) is Completed) ==> applied_balance(balance as int, t)
            == balance,
{
}

} // verus!
