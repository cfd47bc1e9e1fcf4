use rosarium::language::{
    ordinal_n_acc, ordinal_n_acc_upper, ordinal_n_gen, u8_dec_string, Language,
};

#[test]
fn ordinals_accusative() {
    assert_eq!(ordinal_n_acc(1), "primum");
    assert_eq!(ordinal_n_acc(2), "secundum");
    assert_eq!(ordinal_n_acc(5), "quintum");
    assert_eq!(ordinal_n_acc(10), "decimum");
    assert_eq!(ordinal_n_acc(0), "");
    assert_eq!(ordinal_n_acc(11), "");
}

#[test]
fn ordinals_accusative_capitalised() {
    assert_eq!(ordinal_n_acc_upper(1), "Primum");
    assert_eq!(ordinal_n_acc_upper(3), "Tertium");
    assert_eq!(ordinal_n_acc_upper(10), "Decimum");
    assert_eq!(ordinal_n_acc_upper(12), "");
}

#[test]
fn ordinals_genitive() {
    assert_eq!(ordinal_n_gen(1), "primi");
    assert_eq!(ordinal_n_gen(4), "quarti");
    assert_eq!(ordinal_n_gen(10), "decimi");
    assert_eq!(ordinal_n_gen(0), "");
}

#[test]
fn language_names() {
    assert_eq!(Language::LATINA.to_string(), "latina");
    assert_eq!(Language::GERMANA.to_string(), "germana");
    assert_eq!(Language::ANGLIA.to_string(), "anglia");
    assert_eq!(Language::SLAVONICA.to_string(), "slavonica_antiqua");
    assert_eq!(
        Language::values(),
        vec![
            Language::ANGLIA,
            Language::GERMANA,
            Language::LATINA,
            Language::SLAVONICA,
        ]
    );
}

#[test]
fn decimal_rendering() {
    assert_eq!(u8_dec_string(0), "0");
    assert_eq!(u8_dec_string(7), "7");
    assert_eq!(u8_dec_string(10), "10");
    assert_eq!(u8_dec_string(42), "42");
    assert_eq!(u8_dec_string(100), "100");
    assert_eq!(u8_dec_string(255), "255");
}
