use wasm_compat::extract::list_symbols;
use wasm_compat::frame::{frame_custom, is_well_framed, name_map_is_safe, skip_section};
use wasm_compat::leb::{is_overlong, read_unsigned, skip_integer, skip_string};
use wasm_compat::code::{skip_body_code, skip_initializer, skip_opcode};

const HEADER: [u8; 8] = [0x00, 0x61, 0x73, 0x6d, 0x01, 0x00, 0x00, 0x00];

fn with_header(rest: &[u8]) -> Vec<u8> {
    let mut out = HEADER.to_vec();
    out.extend_from_slice(rest);
    out
}

#[test]
fn unsigned_integers_are_read_by_groups_of_seven_bits() {
    assert_eq!(read_unsigned(&[0x00], 0), Some((0, 1)));
    assert_eq!(read_unsigned(&[0x7f], 0), Some((127, 1)));
    assert_eq!(read_unsigned(&[0x80, 0x01], 0), Some((128, 2)));
    assert_eq!(read_unsigned(&[0xe5, 0x8e, 0x26], 0), Some((624485, 3)));
    assert_eq!(read_unsigned(&[0xff, 0xff, 0xff, 0xff, 0x0f], 0), Some((0xffff_ffff, 5)));
    assert_eq!(read_unsigned(&[0x09, 0xac, 0x02, 0x09], 1), Some((300, 3)));
}

#[test]
fn unsigned_integers_may_be_padded_to_five_bytes() {
    assert_eq!(read_unsigned(&[0x84, 0x00], 0), Some((4, 2)));
    assert_eq!(read_unsigned(&[0x80, 0x80, 0x80, 0x80, 0x00], 0), Some((0, 5)));
}

#[test]
fn unsigned_integers_beyond_five_bytes_are_refused() {
    assert_eq!(read_unsigned(&[0x80, 0x80, 0x80, 0x80, 0x80, 0x00], 0), None);
    assert_eq!(read_unsigned(&[0xff, 0xff, 0xff, 0xff, 0xff, 0x7f], 0), None);
    assert_eq!(read_unsigned(&[0x80, 0x80, 0x80, 0x80, 0x80], 0), None);
}

#[test]
fn bits_beyond_32_are_dropped() {
    assert_eq!(read_unsigned(&[0xff, 0xff, 0xff, 0xff, 0x10], 0), Some((0x0fff_ffff, 5)));
    assert_eq!(read_unsigned(&[0xff, 0xff, 0xff, 0xff, 0x7f], 0), Some((0xffff_ffff, 5)));
    assert_eq!(read_unsigned(&[0x80, 0x80, 0x80, 0x80, 0x70], 0), Some((0, 5)));
    assert_eq!(read_unsigned(&[0x81, 0x80, 0x80, 0x80, 0x31], 0), Some((0x1000_0001, 5)));
}

#[test]
fn a_sixth_byte_counts_only_where_it_is_there() {
    assert!(is_overlong(&[0x80, 0x80, 0x80, 0x80, 0x80, 0x00], 0));
    assert!(is_overlong(&[0x00, 0xff, 0xff, 0xff, 0xff, 0xff, 0xff], 1));
    assert!(!is_overlong(&[0x80, 0x80, 0x80, 0x80, 0x80], 0));
    assert!(!is_overlong(&[0x80, 0x80, 0x80, 0x80, 0x00, 0x00], 0));
    assert!(!is_overlong(&[], 0));
}

#[test]
fn unsigned_integers_cut_short_are_refused() {
    assert_eq!(read_unsigned(&[], 0), None);
    assert_eq!(read_unsigned(&[0x80], 0), None);
    assert_eq!(read_unsigned(&[0x01], 1), None);
}

#[test]
fn signed_integers_end_with_the_first_plain_byte() {
    assert_eq!(skip_integer(&[0x7f], 0, 5), Some(1));
    assert_eq!(skip_integer(&[0x80, 0x80, 0x80, 0x80, 0x78], 0, 5), Some(5));
    assert_eq!(skip_integer(&[0x80, 0x80, 0x80, 0x80, 0x80, 0x00], 0, 5), None);
    assert_eq!(
        skip_integer(&[0x80, 0x80, 0x80, 0x80, 0x80, 0x80, 0x80, 0x80, 0x80, 0x7f], 0, 10),
        Some(10)
    );
    assert_eq!(skip_integer(&[0x80], 0, 5), None);
    assert_eq!(skip_integer(&[0x00], 0, 0), None);
}

#[test]
fn strings_must_lie_within_the_input() {
    assert_eq!(skip_string(&[0x00], 0), Some(1));
    assert_eq!(skip_string(&[0x03, 0x61, 0x62, 0x63], 0), Some(4));
    assert_eq!(skip_string(&[0x03, 0x61, 0x62], 0), None);
    assert_eq!(skip_string(&[0xff, 0xff, 0xff, 0xff, 0x0f, 0x61], 0), None);
}

#[test]
fn instructions_carry_their_operands() {
    assert_eq!(skip_opcode(&[0x01], 0), Some(1));
    assert_eq!(skip_opcode(&[0x02, 0x40], 0), Some(2));
    assert_eq!(skip_opcode(&[0x02, 0x00], 0), None);
    assert_eq!(skip_opcode(&[0x10, 0x80, 0x01], 0), Some(3));
    assert_eq!(skip_opcode(&[0x0e, 0x02, 0x00, 0x01, 0x02], 0), Some(5));
    assert_eq!(skip_opcode(&[0x0e, 0x02, 0x00, 0x01], 0), None);
    assert_eq!(skip_opcode(&[0x11, 0x00, 0x00], 0), Some(3));
    assert_eq!(skip_opcode(&[0x11, 0x00, 0x02], 0), None);
    assert_eq!(skip_opcode(&[0x28, 0x02, 0x00], 0), Some(3));
    assert_eq!(skip_opcode(&[0x3f, 0x00], 0), Some(2));
    assert_eq!(skip_opcode(&[0x41, 0x7f], 0), Some(2));
    assert_eq!(
        skip_opcode(&[0x42, 0x80, 0x80, 0x80, 0x80, 0x80, 0x80, 0x80, 0x80, 0x80, 0x7f], 0),
        Some(11)
    );
    assert_eq!(skip_opcode(&[0x43, 0xff, 0xff, 0xff, 0xff], 0), Some(5));
    assert_eq!(skip_opcode(&[0x44, 0, 0, 0, 0, 0, 0, 0xf8, 0x7f], 0), Some(9));
    assert_eq!(skip_opcode(&[0x44, 0, 0, 0], 0), None);
    assert_eq!(skip_opcode(&[0x6a], 0), Some(1));
    assert_eq!(skip_opcode(&[0xbf], 0), Some(1));
}

#[test]
fn unknown_instructions_are_refused() {
    for op in [0x06u8, 0x12, 0x1c, 0x25, 0xc0, 0xfc, 0xff] {
        assert_eq!(skip_opcode(&[op, 0x00, 0x00], 0), None);
    }
    assert_eq!(skip_opcode(&[], 0), None);
}

#[test]
fn initializer_ends_with_the_first_end() {
    assert_eq!(skip_initializer(&[0x41, 0x00, 0x0b, 0x0b], 0), Some(3));
    assert_eq!(skip_initializer(&[0x0b], 0), Some(1));
    assert_eq!(skip_initializer(&[0x41, 0x00], 0), None);
}

#[test]
fn body_code_ends_where_its_blocks_are_closed() {
    assert_eq!(skip_body_code(&[0x0b], 0), Some(1));
    assert_eq!(skip_body_code(&[0x02, 0x40, 0x03, 0x40, 0x0b, 0x0b, 0x0b, 0x01], 0), Some(7));
    assert_eq!(skip_body_code(&[0x04, 0x7f, 0x41, 0x01, 0x05, 0x41, 0x02, 0x0b, 0x0b], 0), Some(9));
    assert_eq!(skip_body_code(&[0x02, 0x40, 0x0b], 0), None);
}

#[test]
fn sections_are_measured_by_their_contents() {
    // A type section that declares 127 bytes and lists nothing ends after its count.
    assert_eq!(skip_section(&[0x01, 0x7f, 0x00], 0), Some(3));
    assert_eq!(skip_section(&[0x03, 0x02, 0x01, 0x00], 0), Some(4));
    assert_eq!(skip_section(&[0x08, 0x01, 0x05], 0), Some(3));
    assert_eq!(skip_section(&[0x05, 0x03, 0x01, 0x00, 0x01], 0), Some(5));
    assert_eq!(skip_section(&[0x05, 0x04, 0x01, 0x01, 0x01, 0x02], 0), Some(6));
    assert_eq!(skip_section(&[0x04, 0x04, 0x01, 0x70, 0x00, 0x00], 0), Some(6));
    assert_eq!(skip_section(&[0x04, 0x04, 0x01, 0x6f, 0x00, 0x00], 0), None);
    assert_eq!(skip_section(&[0x09, 0x07, 0x01, 0x00, 0x41, 0x00, 0x0b, 0x01, 0x00], 0), Some(9));
    assert_eq!(skip_section(&[0x0c, 0x02, 0xaa, 0xbb], 0), Some(4));
    assert_eq!(skip_section(&[0x0c, 0x03, 0xaa, 0xbb], 0), None);
    assert_eq!(skip_section(&[], 0), None);
}

#[test]
fn custom_sections_must_cover_their_name() {
    // name "ab", payload of one byte
    assert_eq!(skip_section(&[0x00, 0x04, 0x02, 0x61, 0x62, 0xff], 0), Some(6));
    // declared length equal to the name field: empty payload
    assert_eq!(skip_section(&[0x00, 0x03, 0x02, 0x61, 0x62], 0), Some(5));
    // declared length shorter than the name field
    assert_eq!(skip_section(&[0x00, 0x02, 0x02, 0x61, 0x62], 0), None);
    assert_eq!(skip_section(&[0x00, 0x00, 0x00], 0), None);
    // payload beyond the input
    assert_eq!(skip_section(&[0x00, 0x05, 0x02, 0x61, 0x62, 0xff], 0), None);
}

#[test]
fn custom_sections_are_framed_by_name_and_payload() {
    assert_eq!(frame_custom(&[0x00, 0x04, 0x02, 0x61, 0x62, 0xff], 1), Some((3, 5, 6)));
    assert_eq!(frame_custom(&[0x01, 0x00], 0), Some((2, 2, 2)));
    assert_eq!(frame_custom(&[0x00, 0x00], 0), None);
    assert_eq!(frame_custom(&[0x05, 0x04, 0x61], 0), None);
}

#[test]
fn name_maps_are_read_up_to_the_function_names() {
    assert!(name_map_is_safe(&[], 0));
    // module name only
    assert!(name_map_is_safe(&[0x00, 0x02, 0x01, 0x6d], 0));
    // function names: one entry, index 0, name "a"
    assert!(name_map_is_safe(&[0x01, 0x04, 0x01, 0x00, 0x01, 0x61], 6));
    // module name, then function names
    assert!(name_map_is_safe(&[0x00, 0x02, 0x01, 0x6d, 0x01, 0x04, 0x01, 0x00, 0x01, 0x61], 10));
    // nothing is read after the function names
    assert!(name_map_is_safe(&[0x01, 0x01, 0x00, 0x02, 0x7f], 5));
}

#[test]
fn name_maps_that_end_early_are_safe() {
    // subsection without a size
    assert!(name_map_is_safe(&[0x01], 1));
    // a size cut short
    assert!(name_map_is_safe(&[0x01, 0x80], 2));
    assert!(name_map_is_safe(&[0x01, 0x80, 0x80, 0x80, 0x80, 0x80], 6));
    // function names without a count
    assert!(name_map_is_safe(&[0x01, 0x00], 2));
    // one name announced, none there
    assert!(name_map_is_safe(&[0x01, 0x01, 0x01], 3));
    // two announced, one there
    assert!(name_map_is_safe(&[0x01, 0x04, 0x02, 0x00, 0x01, 0x61], 6));
    // an index without a name
    assert!(name_map_is_safe(&[0x01, 0x02, 0x01, 0x00], 4));
}

#[test]
fn name_maps_that_overrun_are_refused() {
    // subsection beyond the payload
    assert!(!name_map_is_safe(&[0x01, 0x05], 2));
    assert!(!name_map_is_safe(&[0x02, 0x01], 2));
    assert!(!name_map_is_safe(&[0x00, 0x01, 0x00, 0x07, 0x02, 0x00], 6));
    // a name beyond its subsection
    assert!(!name_map_is_safe(&[0x01, 0x04, 0x01, 0x00, 0x02, 0x61, 0x62], 7));
    // the second name beyond its subsection
    assert!(!name_map_is_safe(&[0x01, 0x06, 0x02, 0x00, 0x01, 0x61, 0x01, 0x01], 8));
}

#[test]
fn name_maps_with_an_integer_of_six_bytes_are_refused() {
    assert!(!name_map_is_safe(&[0x01, 0x80, 0x80, 0x80, 0x80, 0x80, 0x00], 7));
    assert!(!name_map_is_safe(&[0x01, 0x06, 0x80, 0x80, 0x80, 0x80, 0x80, 0x00], 8));
    assert!(!name_map_is_safe(&[0x01, 0x07, 0x01, 0x80, 0x80, 0x80, 0x80, 0x80, 0x00], 9));
}

#[test]
fn name_maps_may_announce_no_more_names_than_allowed() {
    let map = [0x01, 0x01, 0x05];
    assert!(name_map_is_safe(&map, 5));
    assert!(!name_map_is_safe(&map, 4));
    assert!(!name_map_is_safe(&[0x01, 0x05, 0xff, 0xff, 0xff, 0xff, 0x0f], 1000));
}

#[test]
fn type_bytes_are_read_without_their_top_bit() {
    // a signature (i32, f64) -> i64 written with and without the top bit
    assert_eq!(skip_section(&[0x01, 0x07, 0x01, 0x60, 0x02, 0x7f, 0x7c, 0x01, 0x7e], 0), Some(9));
    assert_eq!(skip_section(&[0x01, 0x07, 0x01, 0x60, 0x02, 0xff, 0xfc, 0x01, 0xfe], 0), Some(9));
    assert_eq!(skip_section(&[0x01, 0x07, 0x01, 0x60, 0x02, 0x7f, 0x7b, 0x01, 0x7e], 0), None);
    assert_eq!(skip_section(&[0x04, 0x04, 0x01, 0xf0, 0x00, 0x00], 0), Some(6));
    assert_eq!(skip_opcode(&[0x02, 0xc0], 0), Some(2));
    assert_eq!(skip_opcode(&[0x03, 0xff], 0), Some(2));
    assert_eq!(skip_opcode(&[0x04, 0xbf], 0), None);
}

#[test]
fn header_is_required() {
    assert!(!is_well_framed(&[]));
    assert!(!is_well_framed(&HEADER[..7]));
    assert!(is_well_framed(&HEADER));
    assert!(!is_well_framed(&[0x00, 0x61, 0x73, 0x6d, 0x02, 0x00, 0x00, 0x00]));
    assert!(!is_well_framed(b"\0asM\x01\0\0\0"));
}

#[test]
fn damaged_modules_are_not_well_framed() {
    assert!(!is_well_framed(&with_header(&[0x00, 0x07, 0x04, 0x6e, 0x61, 0x6d, 0x65, 0x01, 0x05])));
    assert!(!is_well_framed(&with_header(&[0x00, 0x00, 0x00])));
    assert!(!is_well_framed(&with_header(&[0x01, 0x80, 0x80, 0x80, 0x80, 0x80, 0x00])));
    // a `name` section reached only because the type section before it is
    // shorter than it declares
    assert!(!is_well_framed(&with_header(&[
        0x01, 0x0a, 0x00, 0x00, 0x07, 0x04, 0x6e, 0x61, 0x6d, 0x65, 0x01, 0x05
    ])));
    // the name's length padded to two bytes
    assert!(!is_well_framed(&with_header(&[
        0x00, 0x07, 0x84, 0x00, 0x6e, 0x61, 0x6d, 0x65, 0x01, 0x05
    ])));
    // more names announced than the input has bytes
    assert!(!is_well_framed(&with_header(&[
        0x00, 0x08, 0x04, 0x6e, 0x61, 0x6d, 0x65, 0x01, 0x01, 0x7f
    ])));
}

#[test]
fn well_framed_modules_reach_the_extractor_and_come_back() {
    // Sections that declare lengths they do not have.
    let lying = with_header(&[0x01, 0x7f, 0x00, 0x03, 0x00, 0x01, 0x00]);
    assert!(is_well_framed(&lying));
    assert_eq!(list_symbols(&lying), Ok(vec![]));

    // A `name` section with a sound map.
    let named = with_header(&[
        0x00, 0x0b, 0x04, 0x6e, 0x61, 0x6d, 0x65, 0x01, 0x04, 0x01, 0x00, 0x01, 0x61,
    ]);
    assert!(is_well_framed(&named));
    assert_eq!(list_symbols(&named), Ok(vec![]));

    // A custom section of another name may hold anything.
    let other = with_header(&[0x00, 0x08, 0x04, 0x6e, 0x61, 0x6d, 0x66, 0x01, 0x05, 0xff]);
    assert!(is_well_framed(&other));
    assert_eq!(list_symbols(&other), Ok(vec![]));

    // The bytes `name` inside a function section are no section header.
    let inside = with_header(&[0x03, 0x08, 0x07, 0x00, 0x07, 0x04, 0x6e, 0x61, 0x6d, 0x65]);
    assert!(is_well_framed(&inside));
    assert_eq!(list_symbols(&inside), Ok(vec![]));
}

#[test]
fn what_the_extractor_reads_is_well_framed() {
    // A name map that announces one name and holds none.
    let early = with_header(&[0x00, 0x08, 0x04, 0x6e, 0x61, 0x6d, 0x65, 0x01, 0x01, 0x01]);
    assert!(is_well_framed(&early));
    assert_eq!(list_symbols(&early), Ok(vec![]));

    // A subsection without a size.
    let sizeless = with_header(&[0x00, 0x06, 0x04, 0x6e, 0x61, 0x6d, 0x65, 0x01]);
    assert!(is_well_framed(&sizeless));
    assert_eq!(list_symbols(&sizeless), Ok(vec![]));

    // Only the first `name` section is read: a second may be damaged.
    let second = with_header(&[
        0x00, 0x05, 0x04, 0x6e, 0x61, 0x6d, 0x65, // first, empty
        0x00, 0x07, 0x04, 0x6e, 0x61, 0x6d, 0x65, 0x01, 0x05, // second, overrunning
    ]);
    assert!(is_well_framed(&second));
    assert_eq!(list_symbols(&second), Ok(vec![]));

    // A declared length of five bytes with bits beyond the thirty-second.
    let wide = with_header(&[0x01, 0xff, 0xff, 0xff, 0xff, 0x7f, 0x00]);
    assert!(is_well_framed(&wide));
    assert_eq!(list_symbols(&wide), Ok(vec![]));

    // A count whose fifth byte holds only bits beyond the thirty-second: zero.
    let zero = with_header(&[0x03, 0x05, 0x80, 0x80, 0x80, 0x80, 0x70]);
    assert!(is_well_framed(&zero));
    assert_eq!(list_symbols(&zero), Ok(vec![]));

    // Type bytes written with their top bit set.
    let topped = with_header(&[
        0x01, 0x07, 0x01, 0x60, 0x02, 0xff, 0xfc, 0x01, 0xfe, // type
        0x04, 0x04, 0x01, 0xf0, 0x00, 0x00, // table
        0x03, 0x02, 0x01, 0x00, // function
        0x0a, 0x09, 0x01, 0x07, 0x01, 0x01, 0xff, 0x02, 0xc0, 0x0b, 0x0b, // code
    ]);
    assert!(is_well_framed(&topped));
    assert_eq!(list_symbols(&topped), Ok(vec![]));
}

/// A small generator of repeatable pseudo-random numbers.
fn next(state: &mut u64) -> u64 {
    *state = state.wrapping_mul(6364136223846793005).wrapping_add(1442695040888963407);
    *state >> 33
}

#[test]
fn extractor_returns_on_every_well_framed_mutation() {
    // A module with imports, exports, code, data and a name map.
    let seed: Vec<u8> = with_header(&[
        0x01, 0x04, 0x01, 0x60, 0x00, 0x00, // type
        0x02, 0x09, 0x01, 0x03, 0x65, 0x6e, 0x76, 0x01, 0x61, 0x00, 0x00, // import env.a
        0x03, 0x03, 0x02, 0x00, 0x00, // two functions
        0x05, 0x03, 0x01, 0x00, 0x01, // memory
        0x07, 0x05, 0x01, 0x01, 0x62, 0x00, 0x01, // export b = function 1
        0x0a, 0x0b, 0x02, 0x02, 0x00, 0x0b, 0x06, 0x00, 0x02, 0x40, 0x41, 0x00, 0x1a, 0x0b,
        0x0b, // code
        0x0b, 0x07, 0x01, 0x00, 0x41, 0x00, 0x0b, 0x01, 0x78, // data
        0x00, 0x0b, 0x04, 0x6e, 0x61, 0x6d, 0x65, 0x01, 0x04, 0x01, 0x00, 0x01, 0x61, // names
    ]);
    assert!(is_well_framed(&seed));
    let interesting = [0x00u8, 0x01, 0x02, 0x04, 0x05, 0x0b, 0x40, 0x6e, 0x7f, 0x80, 0xff];
    let mut state = 0x5eed_u64;
    let mut framed = 0;
    for _ in 0..40_000 {
        let mut wasm = seed.clone();
        let changes = 1 + next(&mut state) % 3;
        for _ in 0..changes {
            let at = 8 + (next(&mut state) as usize) % (wasm.len() - 8);
            let byte = if next(&mut state) % 2 == 0 {
                interesting[(next(&mut state) as usize) % interesting.len()]
            } else {
                next(&mut state) as u8
            };
            match next(&mut state) % 3 {
                0 => wasm[at] = byte,
                1 => wasm.insert(at, byte),
                _ => {
                    wasm.remove(at);
                }
            }
        }
        if is_well_framed(&wasm) {
            framed += 1;
            // Whatever the extractor makes of it, it comes back.
            let _ = list_symbols(&wasm);
        }
    }
    assert!(framed > 1_000);
}

#[test]
fn extractor_returns_on_every_well_framed_short_input() {
    let alphabet = [
        0x00u8, 0x01, 0x02, 0x03, 0x04, 0x05, 0x07, 0x0a, 0x0b, 0x41, 0x60, 0x6e, 0x61, 0x6d, 0x65,
        0x7f, 0x80,
    ];
    let mut state = 0xfeed_u64;
    let mut framed = 0;
    for _ in 0..40_000 {
        let length = (next(&mut state) % 12) as usize;
        let mut wasm = HEADER.to_vec();
        for _ in 0..length {
            wasm.push(alphabet[(next(&mut state) as usize) % alphabet.len()]);
        }
        if is_well_framed(&wasm) {
            framed += 1;
            let _ = list_symbols(&wasm);
        }
    }
    assert!(framed > 100);
}

#[test]
fn extractor_returns_on_every_well_framed_name_map() {
    let alphabet = [0x00u8, 0x01, 0x02, 0x03, 0x05, 0x61, 0x7f, 0x80, 0x81, 0xff];
    let mut state = 0xcafe_u64;
    let mut framed = 0;
    let mut refused = 0;
    for _ in 0..40_000 {
        let length = (next(&mut state) % 10) as usize;
        let mut wasm = HEADER.to_vec();
        wasm.extend_from_slice(&[0x00, (5 + length) as u8, 0x04, 0x6e, 0x61, 0x6d, 0x65]);
        for _ in 0..length {
            wasm.push(alphabet[(next(&mut state) as usize) % alphabet.len()]);
        }
        if is_well_framed(&wasm) {
            framed += 1;
            assert_eq!(list_symbols(&wasm), Ok(vec![]));
        } else {
            refused += 1;
        }
    }
    assert!(framed > 10_000);
    assert!(refused > 1_000);
}
