use native_model::header::Header;
use native_model::{native_model_encode, Wrapper};

#[test]
fn native_model_deserialize_with_body() {
    let mut data = vec![0u8; 8];
    let data = native_model_encode(&mut data, 200000, 100000);
    assert_eq!(data.len(), 16);
    let model = Wrapper::deserialize(&data[..]).unwrap();
    assert_eq!(model.get_type_id(), 200000);
    assert_eq!(model.get_version(), 100000);
    assert_eq!(model.value().len(), 8);
}

#[test]
fn header_is_two_little_endian_numbers() {
    let mut body = vec![9u8, 8, 7];
    let packed = native_model_encode(&mut body, 0x0403_0201, 0xfffe_fdfc);
    assert_eq!(packed, vec![1, 2, 3, 4, 0xfc, 0xfd, 0xfe, 0xff, 9, 8, 7]);
    // The body is moved into the envelope.
    assert!(body.is_empty());

    let model = Wrapper::deserialize(&packed[..]).unwrap();
    assert_eq!(model.get_id(), 0x0403_0201);
    assert_eq!(model.get_type_id(), 0x0403_0201);
    assert_eq!(model.get_version(), 0xfffe_fdfc);
    assert_eq!(model.value(), &[9u8, 8, 7][..]);
}

#[test]
fn envelope_of_an_empty_body_is_the_header() {
    let mut body = Vec::new();
    let packed = native_model_encode(&mut body, 1, 2);
    assert_eq!(packed, vec![1, 0, 0, 0, 2, 0, 0, 0]);
    let model = Wrapper::deserialize(&packed[..]).unwrap();
    assert_eq!(model.get_id(), 1);
    assert_eq!(model.get_version(), 2);
    assert!(model.value().is_empty());
}

#[test]
fn buffers_shorter_than_a_header_are_no_envelope() {
    for len in 0..8 {
        let data = vec![255u8; len];
        assert!(Wrapper::deserialize(&data[..]).is_none());
        assert!(Header::read_from_prefix(&data[..]).is_none());
    }
    let data = vec![255u8; 8];
    let model = Wrapper::deserialize(&data[..]).unwrap();
    assert_eq!(model.get_id(), u32::MAX);
    assert_eq!(model.get_version(), u32::MAX);
}

#[test]
fn setters_change_one_field_of_the_header() {
    let data = vec![1u8, 0, 0, 0, 2, 0, 0, 0, 42];
    let mut model = Wrapper::deserialize(&data[..]).unwrap();
    model.set_type_id(7);
    assert_eq!(model.get_type_id(), 7);
    assert_eq!(model.get_id(), 7);
    assert_eq!(model.get_version(), 2);
    assert_eq!(model.value(), &[42u8][..]);
    model.set_version(9);
    assert_eq!(model.get_id(), 7);
    assert_eq!(model.get_version(), 9);
    assert_eq!(model.value(), &[42u8][..]);
    // The envelope with the new header; the buffer that was read is as it was.
    assert_eq!(model.to_vec(), vec![7, 0, 0, 0, 9, 0, 0, 0, 42]);
    assert_eq!(data, vec![1u8, 0, 0, 0, 2, 0, 0, 0, 42]);
}

#[test]
fn wrapper_gives_back_the_envelope_it_read() {
    for data in [
        vec![1u8, 0, 0, 0, 2, 0, 0, 0],
        vec![0x2c, 0x01, 0, 0, 7, 0, 0, 0, 200],
        vec![255u8; 20],
    ] {
        let model = Wrapper::deserialize(&data[..]).unwrap();
        assert_eq!(model.to_vec(), data);
    }
    let data = vec![1u8, 0, 0, 0, 2, 0, 0, 0, 5, 6];
    let mut model = Wrapper::deserialize(&data[..]).unwrap();
    model.set_version(0x0102_0304);
    assert_eq!(model.to_vec(), vec![1, 0, 0, 0, 4, 3, 2, 1, 5, 6]);
}

#[test]
fn header_reads_back_what_it_writes() {
    for (id, version) in [(0, 0), (1, 1), (255, 256), (65535, 65536), (u32::MAX, 16777216)] {
        let header = Header::new(id, version);
        assert_eq!(header.get_id(), id);
        assert_eq!(header.get_version(), version);
        let bytes = header.to_vec();
        assert_eq!(bytes.len(), 8);
        assert_eq!(&bytes[..4], &id.to_le_bytes());
        assert_eq!(&bytes[4..], &version.to_le_bytes());
        let (back, rest) = Header::read_from_prefix(&bytes[..]).unwrap();
        assert_eq!(back, header);
        assert!(rest.is_empty());
    }
}
