use wasi_ext_lib::redirect::{
    encode_redirect, encode_redirects, Redirect, RedirectTag, WirePayload, WireRedirect,
};
use wasi_ext_lib::ConstructionError;

fn wire_parts(w: WireRedirect) -> (RedirectTag, Option<String>, Option<u32>, u32) {
    match w.payload {
        WirePayload::Path(p) => (w.tag, Some(p), None, w.fd_dst),
        WirePayload::Src(fd) => (w.tag, None, Some(fd), w.fd_dst),
        WirePayload::Ignored => (w.tag, None, None, w.fd_dst),
    }
}

#[test]
fn encodes_read() {
    let w = encode_redirect(&Redirect::Read(5, String::from("in.txt"))).unwrap();
    let (tag, path, src, dst) = wire_parts(w);
    assert_eq!(tag, RedirectTag::Read);
    assert_eq!(path.as_deref(), Some("in.txt"));
    assert_eq!(src, None);
    assert_eq!(dst, 5);
}

#[test]
fn encodes_write() {
    let w = encode_redirect(&Redirect::Write(6, String::from("out.txt"))).unwrap();
    let (tag, path, src, dst) = wire_parts(w);
    assert_eq!(tag, RedirectTag::Write);
    assert_eq!(path.as_deref(), Some("out.txt"));
    assert_eq!(src, None);
    assert_eq!(dst, 6);
}

#[test]
fn encodes_append() {
    let w = encode_redirect(&Redirect::Append(7, String::from("log"))).unwrap();
    let (tag, path, _, dst) = wire_parts(w);
    assert_eq!(tag, RedirectTag::Append);
    assert_eq!(path.as_deref(), Some("log"));
    assert_eq!(dst, 7);
}

#[test]
fn encodes_read_write() {
    let w = encode_redirect(&Redirect::ReadWrite(8, String::from("db"))).unwrap();
    let (tag, path, _, dst) = wire_parts(w);
    assert_eq!(tag, RedirectTag::ReadWrite);
    assert_eq!(path.as_deref(), Some("db"));
    assert_eq!(dst, 8);
}

#[test]
fn pipe_in_targets_stdin() {
    let w = encode_redirect(&Redirect::PipeIn(9)).unwrap();
    let (tag, path, src, dst) = wire_parts(w);
    assert_eq!(tag, RedirectTag::PipeIn);
    assert_eq!(path, None);
    assert_eq!(src, Some(9));
    assert_eq!(dst, 0);
}

#[test]
fn pipe_out_targets_stdout() {
    let w = encode_redirect(&Redirect::PipeOut(4)).unwrap();
    let (tag, path, src, dst) = wire_parts(w);
    assert_eq!(tag, RedirectTag::PipeOut);
    assert_eq!(path, None);
    assert_eq!(src, Some(4));
    assert_eq!(dst, 1);
}

#[test]
fn duplicate_carries_both_descriptors() {
    let w = encode_redirect(&Redirect::Duplicate {
        fd_src: 3,
        fd_dst: 11,
    })
    .unwrap();
    let (tag, path, src, dst) = wire_parts(w);
    assert_eq!(tag, RedirectTag::Duplicate);
    assert_eq!(path, None);
    assert_eq!(src, Some(3));
    assert_eq!(dst, 11);
}

#[test]
fn close_ignores_payload() {
    let w = encode_redirect(&Redirect::Close(12)).unwrap();
    let (tag, path, src, dst) = wire_parts(w);
    assert_eq!(tag, RedirectTag::Close);
    assert_eq!(path, None);
    assert_eq!(src, None);
    assert_eq!(dst, 12);
}

#[test]
fn embedded_terminator_fails_encoding() {
    let r = encode_redirect(&Redirect::Read(0, String::from("bad\0path")));
    assert!(matches!(r, Err(ConstructionError)));
    let r = encode_redirect(&Redirect::Write(1, String::from("\0")));
    assert!(matches!(r, Err(ConstructionError)));
    let r = encode_redirect(&Redirect::Append(1, String::from("a\0")));
    assert!(matches!(r, Err(ConstructionError)));
    let r = encode_redirect(&Redirect::ReadWrite(1, String::from("\0b")));
    assert!(matches!(r, Err(ConstructionError)));
}

#[test]
fn sequence_keeps_order() {
    let rs = vec![
        Redirect::Close(2),
        Redirect::PipeOut(5),
        Redirect::Read(0, String::from("f")),
    ];
    let ws = encode_redirects(&rs).unwrap();
    assert_eq!(ws.len(), 3);
    assert_eq!(ws[0].tag, RedirectTag::Close);
    assert_eq!(ws[1].tag, RedirectTag::PipeOut);
    assert_eq!(ws[2].tag, RedirectTag::Read);
}

#[test]
fn sequence_with_bad_path_emits_nothing() {
    let rs = vec![
        Redirect::Close(2),
        Redirect::Read(0, String::from("x\0y")),
        Redirect::Close(3),
    ];
    assert!(matches!(encode_redirects(&rs), Err(ConstructionError)));
}
