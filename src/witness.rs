use vstd::prelude::*;
use vstd::string::*;

use crate::calldata::push_char;
use crate::decimal::{decimal, is_decimal_digit, lemma_decimal_round_trip};
use crate::word::{FieldElement, PublicKey, U256};

verus! {

/// `d` between double quotes.
pub open spec fn quoted(d: Seq<char>) -> Seq<char> {
    seq!['"'] + d + seq!['"']
}

/// One row of the witness matrix: a bracketed triple of quoted decimals.
pub open spec fn row_json(row: [FieldElement; 3]) -> Seq<char> {
    seq!['['] + quoted(decimal(row[0].value())) + seq![','] + quoted(decimal(row[1].value()))
        + seq![','] + quoted(decimal(row[2].value())) + seq![']']
}

/// The rows, each as `row_json`, separated by commas.
pub open spec fn rows_json(rows: Seq<[FieldElement; 3]>) -> Seq<char>
    decreases rows.len(),
{
    if rows.len() == 0 {
        Seq::<char>::empty()
    } else if rows.len() == 1 {
        row_json(rows[0])
    } else {
        rows_json(rows.drop_last()) + seq![','] + row_json(rows.last())
    }
}

/// One `"name": "value", ` member of the input document.
pub open spec fn entry(name: Seq<char>, value: Seq<char>) -> Seq<char> {
    quoted(name) + seq![':', ' '] + quoted(value) + seq![',', ' ']
}

/// The witness generator's input document. Every number is a quoted
/// canonical decimal; `proof` is an array of the matrix rows.
pub open spec fn witness_json(
    index: u32,
    token_address: U256,
    amount: U256,
    new_amount1: U256,
    new_amount2: U256,
    address_1: PublicKey,
    address_2: PublicKey,
    secret: FieldElement,
    proof: Seq<[FieldElement; 3]>,
) -> Seq<char> {
    seq!['{', ' '] + entry("index"@, decimal(index as nat)) + entry(
        "token_address"@,
        decimal(token_address.value()),
    ) + entry("amount"@, decimal(amount.value())) + entry(
        "new_amount1"@,
        decimal(new_amount1.value()),
    ) + entry("new_amount2"@, decimal(new_amount2.value())) + entry(
        "pk_ax1"@,
        decimal(address_1.x.value()),
    ) + entry("pk_ay1"@, decimal(address_1.y.value())) + entry(
        "pk_ax2"@,
        decimal(address_2.x.value()),
    ) + entry("pk_ay2"@, decimal(address_2.y.value())) + entry(
        "secret"@,
        decimal(secret.value()),
    ) + quoted("proof"@) + seq![':', ' ', '['] + rows_json(proof) + seq![']', ' ', '}']
}

/// How many times `c` occurs in `s`.
pub open spec fn count_char(s: Seq<char>, c: char) -> nat
    decreases s.len(),
{
    if s.len() == 0 {
        0
    } else {
        count_char(s.drop_last(), c) + if s.last() == c {
            1nat
        } else {
            0nat
        }
    }
}

pub open spec fn indicator(b: bool) -> nat {
    if b {
        1
    } else {
        0
    }
}

proof fn lemma_count_concat(a: Seq<char>, b: Seq<char>, c: char)
    ensures
        count_char(a + b, c) == count_char(a, c) + count_char(b, c),
    decreases b.len(),
{
    if b.len() == 0 {
        assert(a + b =~= a);
    } else {
        lemma_count_concat(a, b.drop_last(), c);
        assert((a + b).drop_last() =~= a + b.drop_last());
        assert((a + b).last() == b.last());
    }
}

proof fn lemma_count_single(x: char, c: char)
    ensures
        count_char(seq![x], c) == indicator(x == c),
{
    assert(seq![x].drop_last() =~= Seq::<char>::empty());
    assert(seq![x].last() == x);
    assert(count_char(Seq::<char>::empty(), c) == 0);
}

proof fn lemma_count_decimal(n: nat, c: char)
    requires
        !is_decimal_digit(c),
    ensures
        count_char(decimal(n), c) == 0,
{
    lemma_decimal_round_trip(n);
    lemma_count_absent(decimal(n), c);
}

proof fn lemma_count_absent(s: Seq<char>, c: char)
    requires
        forall|i: int| 0 <= i < s.len() ==> s[i] != c,
    ensures
        count_char(s, c) == 0,
    decreases s.len(),
{
    if s.len() > 0 {
        lemma_count_absent(s.drop_last(), c);
    }
}

proof fn lemma_count_quoted(n: nat, c: char)
    requires
        !is_decimal_digit(c),
    ensures
        count_char(quoted(decimal(n)), c) == 2 * indicator(c == '"'),
{
    lemma_count_decimal(n, c);
    lemma_count_single('"', c);
    lemma_count_concat(seq!['"'], decimal(n), c);
    lemma_count_concat(seq!['"'] + decimal(n), seq!['"'], c);
}

proof fn lemma_count_row(row: [FieldElement; 3], c: char)
    requires
        !is_decimal_digit(c),
    ensures
        count_char(row_json(row), c) == indicator(c == '[') + indicator(c == ']') + 2 * indicator(
            c == ',',
        ) + 6 * indicator(c == '"'),
{
    let q0 = quoted(decimal(row[0].value()));
    let q1 = quoted(decimal(row[1].value()));
    let q2 = quoted(decimal(row[2].value()));
    lemma_count_quoted(row[0].value(), c);
    lemma_count_quoted(row[1].value(), c);
    lemma_count_quoted(row[2].value(), c);
    lemma_count_single('[', c);
    lemma_count_single(',', c);
    lemma_count_single(']', c);
    let p1 = seq!['['] + q0;
    let p2 = p1 + seq![','];
    let p3 = p2 + q1;
    let p4 = p3 + seq![','];
    let p5 = p4 + q2;
    lemma_count_concat(seq!['['], q0, c);
    lemma_count_concat(p1, seq![','], c);
    lemma_count_concat(p2, q1, c);
    lemma_count_concat(p3, seq![','], c);
    lemma_count_concat(p4, q2, c);
    lemma_count_concat(p5, seq![']'], c);
}

proof fn lemma_count_rows(rows: Seq<[FieldElement; 3]>, c: char)
    requires
        rows.len() >= 1,
        !is_decimal_digit(c),
    ensures
        count_char(rows_json(rows), c) == rows.len() * (indicator(c == '[') + indicator(c == ']')
            + 2 * indicator(c == ',') + 6 * indicator(c == '"')) + (rows.len() - 1) * indicator(
            c == ',',
        ),
    decreases rows.len(),
{
    lemma_count_row(rows.last(), c);
    if rows.len() > 1 {
        lemma_count_rows(rows.drop_last(), c);
        lemma_count_single(',', c);
        lemma_count_concat(rows_json(rows.drop_last()), seq![','], c);
        lemma_count_concat(rows_json(rows.drop_last()) + seq![','], row_json(rows.last()), c);
        assert(rows.len() * (indicator(c == '[') + indicator(c == ']') + 2 * indicator(c == ',')
            + 6 * indicator(c == '"')) == (rows.len() - 1) * (indicator(c == '[') + indicator(
            c == ']',
        ) + 2 * indicator(c == ',') + 6 * indicator(c == '"')) + (indicator(c == '[')
            + indicator(c == ']') + 2 * indicator(c == ',') + 6 * indicator(c == '"')))
            by (nonlinear_arith);
        assert((rows.len() - 1) * indicator(c == ',') == (rows.len() - 2) * indicator(c == ',')
            + indicator(c == ',')) by (nonlinear_arith)
            requires rows.len() >= 2;
    }
}

/// The matrix text of sixteen rows holds sixteen opening and sixteen
/// closing brackets, 96 double quotes (three quoted strings per row) and 47
/// commas (two inside each row, fifteen between rows): sixteen
/// comma-separated bracketed triples of quoted decimals.
pub proof fn lemma_matrix_shape(rows: Seq<[FieldElement; 3]>)
    requires
        rows.len() == 16,
    ensures
        count_char(rows_json(rows), '[') == 16,
        count_char(rows_json(rows), ']') == 16,
        count_char(rows_json(rows), '"') == 96,
        count_char(rows_json(rows), ',') == 47,
{
    lemma_count_rows(rows, '[');
    lemma_count_rows(rows, ']');
    lemma_count_rows(rows, '"');
    lemma_count_rows(rows, ',');
}

fn push_quoted(out: &mut String, d: &str)
    ensures
        final(out)@ == old(out)@ + quoted(d@),
{
    push_char(out, '"');
    out.append(d);
    push_char(out, '"');
    assert(final(out)@ =~= old(out)@ + quoted(d@));
}

fn push_entry(out: &mut String, name: &str, value: &str)
    ensures
        final(out)@ == old(out)@ + entry(name@, value@),
{
    push_quoted(out, name);
    push_char(out, ':');
    push_char(out, ' ');
    push_quoted(out, value);
    push_char(out, ',');
    push_char(out, ' ');
    assert(final(out)@ =~= old(out)@ + entry(name@, value@));
}

fn push_row(out: &mut String, row: &[FieldElement; 3])
    ensures
        final(out)@ == old(out)@ + row_json(*row),
{
    push_char(out, '[');
    push_quoted(out, row[0].to_decimal().as_str());
    push_char(out, ',');
    push_quoted(out, row[1].to_decimal().as_str());
    push_char(out, ',');
    push_quoted(out, row[2].to_decimal().as_str());
    push_char(out, ']');
    assert(final(out)@ =~= old(out)@ + row_json(*row));
}

/// The witness matrix as comma-separated rows, each a bracketed triple of
/// quoted decimals.
pub fn witness_matrix_json(proof: &[[FieldElement; 3]; 16]) -> (r: String)
    ensures
        r@ == rows_json(proof@),
{
    let mut out = String::new();
    let mut i: usize = 0;
    while i < 16
        invariant
            i <= 16,
            proof@.len() == 16,
            out@ == rows_json(proof@.subrange(0, i as int)),
        decreases 16 - i,
    {
        let ghost before = out@;
        let ghost rows = proof@.subrange(0, i + 1);
        assert(rows.drop_last() =~= proof@.subrange(0, i as int));
        assert(rows.last() == proof@[i as int]);
        if i > 0 {
            push_char(&mut out, ',');
        }
        push_row(&mut out, &proof[i]);
        proof {
            if i > 0 {
                assert(out@ =~= before + seq![','] + row_json(proof@[i as int]));
            } else {
                assert(out@ =~= row_json(proof@[0]));
            }
        }
        i = i + 1;
    }
    assert(proof@.subrange(0, 16) =~= proof@);
    out
}

/// Builds the witness generator's input document.
pub fn witness_input_json(
    index: u32,
    token_address: &U256,
    amount: &U256,
    new_amount1: &U256,
    new_amount2: &U256,
    address_1: &PublicKey,
    address_2: &PublicKey,
    secret: &FieldElement,
    proof: &[[FieldElement; 3]; 16],
) -> (r: String)
    ensures
        r@ == witness_json(
            index,
            *token_address,
            *amount,
            *new_amount1,
            *new_amount2,
            *address_1,
            *address_2,
            *secret,
            proof@,
        ),
{
    let mut out = String::new();
    push_char(&mut out, '{');
    push_char(&mut out, ' ');
    assert(out@ =~= seq!['{', ' ']);
    push_entry(&mut out, "index", U256::from_u64(index as u64).to_decimal().as_str());
    push_entry(&mut out, "token_address", token_address.to_decimal().as_str());
    push_entry(&mut out, "amount", amount.to_decimal().as_str());
    push_entry(&mut out, "new_amount1", new_amount1.to_decimal().as_str());
    push_entry(&mut out, "new_amount2", new_amount2.to_decimal().as_str());
    push_entry(&mut out, "pk_ax1", address_1.x.to_decimal().as_str());
    push_entry(&mut out, "pk_ay1", address_1.y.to_decimal().as_str());
    push_entry(&mut out, "pk_ax2", address_2.x.to_decimal().as_str());
    push_entry(&mut out, "pk_ay2", address_2.y.to_decimal().as_str());
    push_entry(&mut out, "secret", secret.to_decimal().as_str());
    push_quoted(&mut out, "proof");
    push_char(&mut out, ':');
    push_char(&mut out, ' ');
    push_char(&mut out, '[');
    let ghost head = out@;
    let rows = witness_matrix_json(proof);
    out.append(rows.as_str());
    push_char(&mut out, ']');
    push_char(&mut out, ' ');
    push_char(&mut out, '}');
    assert(out@ =~= head + rows_json(proof@) + seq![']', ' ', '}']);
    out
}

} // verus!
