use nft_program::codec::find_text_end;
use nft_program::{Address, CreateCollection, NftUtils};

fn codec() -> CreateCollection {
    CreateCollection { user: Address::new([1; 32]), mint: Address::new([2; 32]), bump: 0 }
}

#[test]
fn short_text_is_padded_with_zeros() {
    let bytes: [u8; 10] = codec().string_to_bytes::<10>("ART");
    assert_eq!(bytes, [b'A', b'R', b'T', 0, 0, 0, 0, 0, 0, 0]);
}

#[test]
fn text_of_the_full_width_fills_the_buffer() {
    let bytes: [u8; 3] = codec().string_to_bytes::<3>("ART");
    assert_eq!(bytes, [b'A', b'R', b'T']);
}

#[test]
fn long_text_is_cut_at_the_width() {
    let bytes: [u8; 4] = codec().string_to_bytes::<4>("Artwork");
    assert_eq!(bytes, [b'A', b'r', b't', b'w']);
}

#[test]
fn empty_text_is_all_zeros() {
    let bytes: [u8; 5] = codec().string_to_bytes::<5>("");
    assert_eq!(bytes, [0; 5]);
}

#[test]
fn buffer_of_no_width_holds_nothing() {
    let bytes: [u8; 0] = codec().string_to_bytes::<0>("Art");
    assert_eq!(bytes, []);
    assert_eq!(codec().bytes_to_string::<0>(&bytes), "");
}

#[test]
fn text_is_stored_as_utf8() {
    let bytes: [u8; 6] = codec().string_to_bytes::<6>("é€");
    assert_eq!(bytes, [0xC3, 0xA9, 0xE2, 0x82, 0xAC, 0]);
}

#[test]
fn text_ends_at_the_first_zero_byte() {
    assert_eq!(find_text_end(&[b'A', b'R', b'T', 0, 0]), 3);
    assert_eq!(find_text_end(&[b'A', 0, b'T', 0, b'X']), 1);
    assert_eq!(find_text_end(&[0, b'R', b'T']), 0);
    assert_eq!(find_text_end(&[b'A', b'R', b'T']), 3);
    assert_eq!(find_text_end::<0>(&[]), 0);
}

#[test]
fn text_is_read_back_up_to_the_first_zero_byte() {
    assert_eq!(codec().bytes_to_string(&[b'A', b'R', b'T', 0, 0]), "ART");
    assert_eq!(codec().bytes_to_string(&[b'A', 0, b'T', 0, b'X']), "A");
    assert_eq!(codec().bytes_to_string(&[0, b'R', b'T']), "");
    assert_eq!(codec().bytes_to_string(&[b'A', b'R', b'T']), "ART");
}

#[test]
fn utf8_is_decoded() {
    assert_eq!(codec().bytes_to_string(&[0xC3, 0xA9, 0xE2, 0x82, 0xAC, 0]), "é€");
}

#[test]
fn invalid_utf8_is_replaced() {
    assert_eq!(codec().bytes_to_string(&[b'A', 0xFF, b'B', 0]), "A\u{FFFD}B");
    assert_eq!(codec().bytes_to_string(&[0xC3]), "\u{FFFD}");
}

#[test]
fn text_that_fits_comes_back_unchanged() {
    for text in ["Art", "ART", "https://x/1.json", "é€", "", "exactly ten"] {
        let name: [u8; 32] = codec().string_to_bytes::<32>(text);
        assert_eq!(codec().bytes_to_string(&name), text);
        let uri: [u8; 200] = codec().string_to_bytes::<200>(text);
        assert_eq!(codec().bytes_to_string(&uri), text);
    }
    let full = "0123456789";
    let symbol: [u8; 10] = codec().string_to_bytes::<10>(full);
    assert_eq!(codec().bytes_to_string(&symbol), full);
}

#[test]
fn longer_text_comes_back_cut() {
    let bytes: [u8; 10] = codec().string_to_bytes::<10>("0123456789ABC");
    assert_eq!(codec().bytes_to_string(&bytes), "0123456789");
}

#[test]
fn text_with_a_zero_byte_comes_back_cut_before_it() {
    let bytes: [u8; 10] = codec().string_to_bytes::<10>("AB\0CD");
    assert_eq!(bytes, [b'A', b'B', 0, b'C', b'D', 0, 0, 0, 0, 0]);
    assert_eq!(codec().bytes_to_string(&bytes), "AB");
}

#[test]
fn text_cut_inside_a_character_comes_back_with_a_replacement() {
    let bytes: [u8; 3] = codec().string_to_bytes::<3>("aé€");
    assert_eq!(bytes, [b'a', 0xC3, 0xA9]);
    let cut: [u8; 2] = codec().string_to_bytes::<2>("aé");
    assert_eq!(cut, [b'a', 0xC3]);
    assert_eq!(codec().bytes_to_string(&cut), "a\u{FFFD}");
}
