use zk_withdraw::{witness_input_json, witness_matrix_json, FieldElement, PublicKey, U256};

const MAX_DECIMAL: &str =
    "115792089237316195423570985008687907853269984665640564039457584007913129639935";

fn fe(first: u8, second: u8) -> FieldElement {
    let mut repr = [0u8; 32];
    repr[0] = first;
    repr[1] = second;
    FieldElement { repr }
}

fn matrix() -> [[FieldElement; 3]; 16] {
    let mut m = [[fe(0, 0); 3]; 16];
    for (i, row) in m.iter_mut().enumerate() {
        for (j, cell) in row.iter_mut().enumerate() {
            *cell = fe((3 * i + j) as u8, 0);
        }
    }
    m
}

#[test]
fn zero_word_is_single_zero() {
    assert_eq!(U256::zero().to_decimal(), "0");
}

#[test]
fn small_word_decimal() {
    assert_eq!(U256::from_u64(1234567890).to_decimal(), "1234567890");
}

#[test]
fn limbs_are_little_endian() {
    let w = U256 { limbs: [0, 1, 0, 0] };
    assert_eq!(w.to_decimal(), "18446744073709551616");
}

#[test]
fn largest_word_decimal() {
    let w = U256 { limbs: [u64::MAX; 4] };
    assert_eq!(w.to_decimal(), MAX_DECIMAL);
}

#[test]
fn decimal_round_trip_on_values() {
    for n in [0u64, 9, 10, 99, 100, 4096, u64::MAX] {
        let text = U256::from_u64(n).to_decimal();
        assert_eq!(text.parse::<u64>().unwrap(), n);
        assert!(text.chars().all(|c| c.is_ascii_digit()));
    }
}

#[test]
fn field_element_reads_little_endian() {
    assert_eq!(fe(1, 0).to_decimal(), "1");
    assert_eq!(fe(0, 1).to_decimal(), "256");
    assert_eq!(fe(0x34, 0x12).to_decimal(), "4660");
}

#[test]
fn field_element_all_ones() {
    let f = FieldElement { repr: [0xff; 32] };
    assert_eq!(f.to_decimal(), MAX_DECIMAL);
}

#[test]
fn field_element_zero() {
    assert_eq!(fe(0, 0).to_decimal(), "0");
}

#[test]
fn matrix_has_sixteen_triples() {
    let text = witness_matrix_json(&matrix());
    assert_eq!(text.matches('[').count(), 16);
    assert_eq!(text.matches(']').count(), 16);
    assert_eq!(text.matches('"').count(), 96);
    assert_eq!(text.matches(',').count(), 47);
    assert!(text.starts_with("[\"0\",\"1\",\"2\"],[\"3\",\"4\",\"5\"]"));
    assert!(text.ends_with("[\"45\",\"46\",\"47\"]"));
}

#[test]
fn input_document_layout() {
    let key1 = PublicKey { x: U256::from_u64(11), y: U256::from_u64(12) };
    let key2 = PublicKey { x: U256::from_u64(21), y: U256::from_u64(22) };
    let text = witness_input_json(
        7,
        &U256::from_u64(1000),
        &U256::from_u64(500),
        &U256::from_u64(200),
        &U256::from_u64(300),
        &key1,
        &key2,
        &fe(0, 1),
        &matrix(),
    );
    let head = "{ \"index\": \"7\", \"token_address\": \"1000\", \"amount\": \"500\", \
                \"new_amount1\": \"200\", \"new_amount2\": \"300\", \"pk_ax1\": \"11\", \
                \"pk_ay1\": \"12\", \"pk_ax2\": \"21\", \"pk_ay2\": \"22\", \"secret\": \"256\", \
                \"proof\": [[\"0\",\"1\",\"2\"],";
    assert!(text.starts_with(head), "{}", text);
    assert!(text.ends_with("[\"45\",\"46\",\"47\"]] }"));
}

#[test]
fn input_document_index_largest() {
    let key = PublicKey { x: U256::zero(), y: U256::zero() };
    let text = witness_input_json(
        u32::MAX,
        &U256 { limbs: [u64::MAX; 4] },
        &U256::zero(),
        &U256::zero(),
        &U256::zero(),
        &key,
        &key,
        &fe(0, 0),
        &matrix(),
    );
    assert!(text.starts_with("{ \"index\": \"4294967295\", \"token_address\": \"1157920892373161954"));
}
