use yaxpeax_arch::{
    ReadError, Reader, ReaderBuilder, U16be, U16le, U32be, U32le, U64be, U64le, U8Reader,
};

fn offsets_in_u16_words<T: Reader<u64, U16le>>(reader: &mut T) {
    reader.mark();
    assert_eq!(reader.offset(), 0);
    reader.next().unwrap();
    assert_eq!(reader.offset(), 1);
    reader.mark();
    reader.next().unwrap();
    assert_eq!(reader.offset(), 1);
    assert_eq!(reader.total_offset(), 2);
}

fn offsets_in_u32_words<T: Reader<u64, U32le>>(reader: &mut T) {
    reader.mark();
    assert_eq!(reader.offset(), 0);
    reader.next().unwrap();
    assert_eq!(reader.offset(), 1);
}

#[test]
fn reader_offset_is_words_not_bytes() {
    offsets_in_u16_words(&mut U8Reader::new(&[0x01, 0x02, 0x03, 0x04]));
    offsets_in_u32_words(&mut U8Reader::new(&[0x01, 0x02, 0x03, 0x04]));
}

#[test]
fn fresh_reader_offset_is_zero() {
    let data = [0x01u8, 0x02, 0x03, 0x04];
    let mut r = U8Reader::new(&data);
    assert_eq!(Reader::<u64, u8>::offset(&mut r), 0);
    assert_eq!(Reader::<u32, U16le>::offset(&mut r), 0);
    assert_eq!(Reader::<u16, U32be>::offset(&mut r), 0);
    Reader::<u64, u8>::next(&mut r).unwrap();
    Reader::<u64, u8>::mark(&mut r);
    assert_eq!(Reader::<u64, u8>::offset(&mut r), 0);
    assert_eq!(Reader::<u64, u8>::total_offset(&mut r), 1);
}

#[test]
fn words_decode_in_their_own_endianness() {
    let data = [0x01u8, 0x02, 0x03, 0x04, 0x05, 0x06, 0x07, 0x08];

    let mut r = U8Reader::new(&data);
    let w: U16le = Reader::<u64, U16le>::next(&mut r).unwrap();
    assert_eq!(w, U16le(0x0201));

    let mut r = U8Reader::new(&data);
    let w: U16be = Reader::<u64, U16be>::next(&mut r).unwrap();
    assert_eq!(w, U16be(0x0102));

    let mut r = U8Reader::new(&data);
    let w: U32le = Reader::<u64, U32le>::next(&mut r).unwrap();
    assert_eq!(w, U32le(0x04030201));

    let mut r = U8Reader::new(&data);
    let w: U32be = Reader::<u64, U32be>::next(&mut r).unwrap();
    assert_eq!(w, U32be(0x01020304));

    let mut r = U8Reader::new(&data);
    let w: U64le = Reader::<u64, U64le>::next(&mut r).unwrap();
    assert_eq!(w, U64le(0x0807060504030201));

    let mut r = U8Reader::new(&data);
    let w: U64be = Reader::<u64, U64be>::next(&mut r).unwrap();
    assert_eq!(w, U64be(0x0102030405060708));

    let mut r = U8Reader::new(&data);
    let b: u8 = Reader::<u64, u8>::next(&mut r).unwrap();
    assert_eq!(b, 0x01);
}

#[test]
fn next_n_reads_all_words() {
    let data = [0x01u8, 0x02, 0x03, 0x04, 0x05, 0x06];
    let mut r = U8Reader::new(&data);
    let mut buf: Vec<U16le> = vec![U16le(0); 3];
    Reader::<u64, U16le>::next_n(&mut r, &mut buf).unwrap();
    assert_eq!(buf, vec![U16le(0x0201), U16le(0x0403), U16le(0x0605)]);
    assert_eq!(Reader::<u64, U16le>::total_offset(&mut r), 3);
}

#[test]
fn next_n_big_endian_swaps_each_word() {
    let data = [0x01u8, 0x02, 0x03, 0x04];
    let mut r = U8Reader::new(&data);
    let mut buf: Vec<U16be> = vec![U16be(0); 2];
    Reader::<u64, U16be>::next_n(&mut r, &mut buf).unwrap();
    assert_eq!(buf, vec![U16be(0x0102), U16be(0x0304)]);
}

#[test]
fn next_n_fails_atomically() {
    let data = [0x01u8, 0x02, 0x03, 0x04];
    let mut touched = U8Reader::new(&data);
    let mut untouched = U8Reader::new(&data);

    let mut buf: Vec<U16le> = vec![U16le(0); 3];
    assert_eq!(
        Reader::<u64, U16le>::next_n(&mut touched, &mut buf),
        Err(ReadError::ExhaustedInput)
    );
    assert_eq!(buf, vec![U16le(0); 3]);
    assert_eq!(Reader::<u64, U16le>::total_offset(&mut touched), 0);

    let after_failure: U16le = Reader::<u64, U16le>::next(&mut touched).unwrap();
    let without_failure: U16le = Reader::<u64, U16le>::next(&mut untouched).unwrap();
    assert_eq!(after_failure, without_failure);
}

#[test]
fn exhausted_reader_still_serves_zero_length_reads() {
    let data = [0x01u8];
    let mut r = U8Reader::new(&data);
    assert_eq!(
        Reader::<u64, U16le>::next(&mut r),
        Err(ReadError::ExhaustedInput)
    );
    let mut empty: Vec<U16le> = Vec::new();
    assert_eq!(Reader::<u64, U16le>::next_n(&mut r, &mut empty), Ok(()));
}

#[test]
fn end_to_end_mark_offset_scenario() {
    let data = [0x01u8, 0x02, 0x03, 0x04];
    let mut r = U8Reader::new(&data);
    Reader::<u64, u8>::mark(&mut r);
    assert_eq!(Reader::<u64, u8>::next(&mut r), Ok(0x01));
    assert_eq!(Reader::<u64, u8>::offset(&mut r), 1);
    assert_eq!(Reader::<u64, u8>::total_offset(&mut r), 1);
    assert_eq!(Reader::<u64, u8>::next(&mut r), Ok(0x02));
    assert_eq!(Reader::<u64, u8>::next(&mut r), Ok(0x03));
    assert_eq!(Reader::<u64, u8>::next(&mut r), Ok(0x04));
    assert_eq!(
        Reader::<u64, u8>::next(&mut r),
        Err(ReadError::ExhaustedInput)
    );
    assert_eq!(Reader::<u64, u8>::total_offset(&mut r), 4);
}

#[test]
fn builder_starts_at_the_given_address() {
    let data: &[u8] = &[0x01, 0x02, 0x03, 0x04];
    let mut r = <&[u8] as ReaderBuilder<u64, u8>>::read_at(data, 2);
    assert_eq!(Reader::<u64, u8>::next(&mut r), Ok(0x03));
    assert_eq!(Reader::<u64, u8>::next(&mut r), Ok(0x04));
    assert_eq!(
        Reader::<u64, u8>::next(&mut r),
        Err(ReadError::ExhaustedInput)
    );

    let mut r = <&[u8] as ReaderBuilder<u16, U16le>>::read_from(data);
    let w: U16le = Reader::<u16, U16le>::next(&mut r).unwrap();
    assert_eq!(w, U16le(0x0201));
    assert_eq!(Reader::<u16, U16le>::offset(&mut r), 1u16);
}
