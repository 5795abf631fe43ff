use tsid_database_id::codec::{char_value, decode_tsid, encode_tsid};

#[test]
fn encode_is_thirteen_canonical_characters() {
    assert_eq!(encode_tsid(0), "0000000000000");
    assert_eq!(encode_tsid(1), "0000000000001");
    assert_eq!(encode_tsid(31), "000000000000Z");
    assert_eq!(encode_tsid(32), "0000000000010");
    assert_eq!(encode_tsid(496830748901259230), "0DS8RXW6W0DYY");
    assert_eq!(encode_tsid(u64::MAX), "FZZZZZZZZZZZZ");
}

#[test]
fn decode_inverts_encode() {
    let values: Vec<u64> = vec![0, 1, 31, 32, 123456789, 496830748901259230, u64::MAX];
    for n in values {
        assert_eq!(decode_tsid(&encode_tsid(n)), Some(n));
    }
}

#[test]
fn decode_is_case_insensitive_with_aliases() {
    assert_eq!(decode_tsid("0ds8rxw6w0dyy"), Some(496830748901259230));
    assert_eq!(decode_tsid("0Ds8RxW6w0dYy"), Some(496830748901259230));
    // o decodes as 0, and i and l both decode as 1.
    assert_eq!(decode_tsid("000000000000o"), Some(0));
    assert_eq!(decode_tsid("000000000000O"), Some(0));
    assert_eq!(decode_tsid("000000000000i"), Some(1));
    assert_eq!(decode_tsid("000000000000l"), Some(1));
    assert_eq!(decode_tsid("000000000000I"), Some(1));
    assert_eq!(decode_tsid("000000000000L"), Some(1));
}

#[test]
fn decode_rejects_bad_input() {
    // Wrong length.
    assert_eq!(decode_tsid(""), None);
    assert_eq!(decode_tsid("000000000000"), None);
    assert_eq!(decode_tsid("00000000000000"), None);
    // Characters outside the alphabet.
    assert_eq!(decode_tsid("000000000000u"), None);
    assert_eq!(decode_tsid("000000000000U"), None);
    assert_eq!(decode_tsid("00000000000-!"), None);
    assert_eq!(decode_tsid("-------------"), None);
    // A leading character past F would carry the value past 64 bits.
    assert_eq!(decode_tsid("G000000000000"), None);
    assert_eq!(decode_tsid("Z000000000000"), None);
    assert_eq!(decode_tsid("FZZZZZZZZZZZZ"), Some(u64::MAX));
}

#[test]
fn char_values_follow_the_alphabet() {
    assert_eq!(char_value('0'), Some(0));
    assert_eq!(char_value('9'), Some(9));
    assert_eq!(char_value('A'), Some(10));
    assert_eq!(char_value('a'), Some(10));
    assert_eq!(char_value('Z'), Some(31));
    assert_eq!(char_value('z'), Some(31));
    assert_eq!(char_value('u'), None);
    assert_eq!(char_value('U'), None);
    assert_eq!(char_value('_'), None);
    assert_eq!(char_value('!'), None);
}
