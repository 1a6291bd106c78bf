use render_core::model::collect_buffers;
use render_core::model::decode_data_uri;
use render_core::model::index_triples;
use render_core::model::BufferError;
use render_core::model::CollectError;
use render_core::model::GltfBuffers;
use render_core::model::Source;

const PREFIX: &str = "data:application/gltf-buffer;base64,";

fn uri(text: &str) -> Vec<u8> {
    format!("{}{}", PREFIX, text).into_bytes()
}

#[test]
fn data_uri_holds_its_buffer_as_base64() {
    assert_eq!(decode_data_uri(&uri("aGVsbG8=")), Ok(b"hello".to_vec()));
    assert_eq!(decode_data_uri(&uri("AAEC")), Ok(vec![0, 1, 2]));
    assert_eq!(decode_data_uri(&uri("AQID")), Ok(vec![1, 2, 3]));
    assert_ne!(decode_data_uri(&uri("AQID")), Ok(b"AQID".to_vec()));
    assert_eq!(decode_data_uri(PREFIX.as_bytes()), Ok(Vec::new()));
}

#[test]
fn other_uris_are_unsupported() {
    assert_eq!(decode_data_uri(b"scene.bin"), Err(BufferError::Unsupported));
    assert_eq!(decode_data_uri(b""), Err(BufferError::Unsupported));
    assert_eq!(
        decode_data_uri(b"data:application/octet-stream;base64,AAEC"),
        Err(BufferError::Unsupported)
    );
    assert_eq!(
        decode_data_uri(&PREFIX.as_bytes()[..PREFIX.len() - 1]),
        Err(BufferError::Unsupported)
    );
    assert_eq!(decode_data_uri(b"AAEC"), Err(BufferError::Unsupported));
}

#[test]
fn text_that_is_no_base64_is_malformed() {
    assert_eq!(decode_data_uri(&uri("a")), Err(BufferError::Malformed));
    assert_eq!(decode_data_uri(&uri("!!!!")), Err(BufferError::Malformed));
    assert_eq!(decode_data_uri(&uri("aGVsb=G8")), Err(BufferError::Malformed));
    assert_eq!(
        decode_data_uri(&uri("aGVsbG8gd29ybGQgaGVsbG8gd29ybGQ*")),
        Err(BufferError::Malformed)
    );
}

#[test]
fn pushed_data_follows_the_data_before_it() {
    let mut buffers = GltfBuffers::new();
    assert_eq!(buffers, GltfBuffers(Vec::new(), Vec::new()));
    buffers.push(b"hello".to_vec());
    assert_eq!(buffers.0, b"hello".to_vec());
    assert_eq!(buffers.1, vec![(0, 5)]);
    buffers.push(Vec::new());
    buffers.push(vec![0, 1, 2]);
    assert_eq!(buffers.0, vec![b'h', b'e', b'l', b'l', b'o', 0, 1, 2]);
    assert_eq!(buffers.1, vec![(0, 5), (5, 5), (5, 8)]);
    assert_eq!(buffers.buffer(0), Some(&b"hello"[..]));
    assert_eq!(buffers.buffer(1), Some(&[][..]));
    assert_eq!(buffers.buffer(2), Some(&[0u8, 1, 2][..]));
    assert_eq!(buffers.buffer(3), None);
    assert_eq!(buffers.buffer(usize::MAX), None);
}

#[test]
fn ranges_pick_their_part_of_the_data() {
    let buffers = GltfBuffers(vec![9, 8, 7, 6], vec![(1, 4), (4, 4), (0, 2)]);
    assert_eq!(buffers.buffer(0), Some(&[8u8, 7, 6][..]));
    assert_eq!(buffers.buffer(1), Some(&[][..]));
    assert_eq!(buffers.buffer(2), Some(&[9u8, 8][..]));
}

#[test]
fn buffers_are_collected_in_order() {
    let sources = [Source::Uri(uri("AQI=")), Source::Uri(uri("")), Source::Uri(uri("AwQF"))];
    let buffers = collect_buffers(&sources).unwrap();
    assert_eq!(buffers.0, vec![1, 2, 3, 4, 5]);
    assert_eq!(buffers.1, vec![(0, 2), (2, 2), (2, 5)]);
    assert_eq!(buffers.buffer(2), Some(&[3u8, 4, 5][..]));
    assert_eq!(collect_buffers(&[]), Ok(GltfBuffers(Vec::new(), Vec::new())));
}

#[test]
fn first_buffer_that_cannot_be_taken_in_is_reported() {
    let sources = [Source::Uri(uri("AQI=")), Source::Bin, Source::Uri(uri("?"))];
    assert_eq!(
        collect_buffers(&sources),
        Err(CollectError { index: 1, fault: BufferError::Unsupported })
    );
    let sources = [Source::Uri(uri("AQI=")), Source::Uri(uri("?")), Source::Bin];
    assert_eq!(
        collect_buffers(&sources),
        Err(CollectError { index: 1, fault: BufferError::Malformed })
    );
    let sources = [Source::Uri(b"file.bin".to_vec())];
    assert_eq!(
        collect_buffers(&sources),
        Err(CollectError { index: 0, fault: BufferError::Unsupported })
    );
}

#[test]
fn indices_are_grouped_in_threes() {
    assert_eq!(index_triples(&[]), Vec::<[u32; 3]>::new());
    assert_eq!(index_triples(&[7]), vec![[7, 0, 0]]);
    assert_eq!(index_triples(&[7, 8]), vec![[7, 8, 0]]);
    assert_eq!(index_triples(&[7, 8, 9]), vec![[7, 8, 9]]);
    assert_eq!(index_triples(&[1, 2, 3, 4]), vec![[1, 2, 3], [4, 0, 0]]);
    assert_eq!(index_triples(&[1, 2, 3, 4, 5, 6]), vec![[1, 2, 3], [4, 5, 6]]);
    assert_eq!(
        index_triples(&[0, 1, 4, 1, 2, 4, 2, 3]),
        vec![[0, 1, 4], [1, 2, 4], [2, 3, 0]]
    );
}
