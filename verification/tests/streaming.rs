use gem_rs::session::decode_stream_element;
use gem_rs::stream::JsonArrayDecoder;

fn feed(decoder: &mut JsonArrayDecoder, chunk: &[u8]) -> Vec<String> {
    decoder
        .push_chunk(chunk)
        .into_iter()
        .map(|bytes| String::from_utf8(bytes).unwrap())
        .collect()
}

#[test]
fn splits_objects_across_chunk_boundaries() {
    let mut decoder = JsonArrayDecoder::new();
    assert_eq!(feed(&mut decoder, b"[{\"a\":1},"), vec!["{\"a\":1}"]);
    assert_eq!(feed(&mut decoder, b"{\"b\":[1,"), Vec::<String>::new());
    assert_eq!(feed(&mut decoder, b"2]}"), vec!["{\"b\":[1,2]}"]);
    assert!(!decoder.is_finished());
    assert_eq!(feed(&mut decoder, b"]"), Vec::<String>::new());
    assert!(decoder.is_finished());
    assert!(!decoder.has_failed());
}

#[test]
fn commas_and_brackets_inside_strings_do_not_split() {
    let mut decoder = JsonArrayDecoder::new();
    let out = feed(&mut decoder, b"[{\"t\":\"a,b]c\\\"d\"},{\"u\":2}]");
    assert_eq!(out, vec!["{\"t\":\"a,b]c\\\"d\"}", "{\"u\":2}"]);
    assert!(decoder.is_finished());
}

#[test]
fn scalar_elements_split_on_separators() {
    let mut decoder = JsonArrayDecoder::new();
    let out = feed(&mut decoder, b"[1, 23,true,\"x\"]");
    assert_eq!(out, vec!["1", "23", "true", "\"x\""]);
    assert!(decoder.is_finished());
}

#[test]
fn leading_whitespace_is_skipped_and_garbage_fails() {
    let mut decoder = JsonArrayDecoder::new();
    assert_eq!(feed(&mut decoder, b"  \r\n ["), Vec::<String>::new());
    assert!(!decoder.has_failed());

    let mut bad = JsonArrayDecoder::new();
    bad.push_chunk(b"not an array");
    assert!(bad.has_failed());
}

#[test]
fn stream_element_decodes_to_a_response() {
    let mut decoder = JsonArrayDecoder::new();
    let out = decoder.push_chunk(
        b"[{\"candidates\":[{\"content\":{\"parts\":[{\"text\":\"part one\"}],\"role\":\"model\"}}]}]",
    );
    assert_eq!(out.len(), 1);
    let response = decode_stream_element(&out[0]).unwrap();
    assert_eq!(response.get_results(), vec!["part one"]);
    assert!(decode_stream_element(b"{\"candidates\":0}").is_err());
}
