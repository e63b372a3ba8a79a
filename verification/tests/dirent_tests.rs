use passfs::errno::Errno;
use passfs::readdir::{
    list_all, release_ref_after_outcome, release_ref_after_resolve, DirWalk, WalkStep,
};

// Append one raw directory record: fixed header, name, then `pad` zero
// bytes (the kernel pads names up to alignment; at least one terminator
// is always present in a well-formed record).
fn push_record(buf: &mut Vec<u8>, ino: u64, cookie: u64, kind: u8, name: &[u8], pad: usize) {
    let reclen = (19 + name.len() + pad) as u16;
    buf.extend_from_slice(&ino.to_le_bytes());
    buf.extend_from_slice(&cookie.to_le_bytes());
    buf.extend_from_slice(&reclen.to_le_bytes());
    buf.push(kind);
    buf.extend_from_slice(name);
    for _ in 0..pad {
        buf.push(0);
    }
}

#[test]
fn test_parse_single_record() {
    let mut buf = Vec::new();
    push_record(&mut buf, 12345, 77, 8, b"hello", 1);
    let out = list_all(buf).unwrap();
    assert_eq!(out.len(), 1);
    assert_eq!(out[0].ino, 12345);
    assert_eq!(out[0].cookie, 77);
    assert_eq!(out[0].kind, 8);
    assert_eq!(out[0].name, b"hello".to_vec());
}

#[test]
fn test_padding_trimmed_from_names() {
    // Untrimmed padding would cause spurious duplicate resolutions
    // downstream, so the name must come out without its zero bytes.
    let mut buf = Vec::new();
    push_record(&mut buf, 1, 1, 8, b"abc", 6);
    let out = list_all(buf).unwrap();
    assert_eq!(out[0].name, b"abc".to_vec());
}

#[test]
fn test_dot_entries_dropped() {
    let mut buf = Vec::new();
    push_record(&mut buf, 1, 1, 4, b".", 1);
    push_record(&mut buf, 2, 2, 4, b"..", 3);
    push_record(&mut buf, 3, 3, 8, b"real", 2);
    push_record(&mut buf, 4, 4, 4, b".config", 1);
    let out = list_all(buf).unwrap();
    assert_eq!(out.len(), 2);
    assert_eq!(out[0].name, b"real".to_vec());
    assert_eq!(out[1].name, b".config".to_vec());
}

#[test]
fn test_empty_buffer_is_empty_listing() {
    assert!(list_all(Vec::new()).unwrap().is_empty());
}

#[test]
fn test_only_pseudo_entries_is_empty_listing() {
    let mut buf = Vec::new();
    push_record(&mut buf, 1, 1, 4, b".", 1);
    push_record(&mut buf, 2, 2, 4, b"..", 3);
    assert!(list_all(buf).unwrap().is_empty());
}

#[test]
fn test_name_without_terminator_is_malformed() {
    let mut buf = Vec::new();
    push_record(&mut buf, 1, 1, 8, b"bad", 0);
    assert_eq!(list_all(buf).unwrap_err(), Errno::InvalidArgument);
}

#[test]
fn test_untrusted_record_length_is_checked() {
    // A record length reaching past the buffer.
    let mut buf = Vec::new();
    push_record(&mut buf, 1, 1, 8, b"ok", 2);
    let n = buf.len();
    buf[16] = (n + 8) as u8;
    buf[17] = 0;
    assert_eq!(list_all(buf).unwrap_err(), Errno::InvalidArgument);

    // A record length smaller than the header.
    let mut buf2 = Vec::new();
    push_record(&mut buf2, 1, 1, 8, b"ok", 2);
    buf2[16] = 10;
    buf2[17] = 0;
    assert_eq!(list_all(buf2).unwrap_err(), Errno::InvalidArgument);

    // A truncated trailing header.
    let mut buf3 = Vec::new();
    push_record(&mut buf3, 1, 1, 8, b"ok", 2);
    buf3.extend_from_slice(&[0u8; 7]);
    assert_eq!(list_all(buf3).unwrap_err(), Errno::InvalidArgument);
}

#[test]
fn test_malformed_record_fails_even_after_entries() {
    // A malformed name mid-buffer fails the whole call, unlike a sink
    // failure, which spares earlier entries.
    let mut buf = Vec::new();
    push_record(&mut buf, 1, 1, 8, b"fine", 2);
    push_record(&mut buf, 2, 2, 8, b"bad", 0);
    assert_eq!(list_all(buf).unwrap_err(), Errno::InvalidArgument);
}

#[test]
fn test_sink_failure_on_first_record_propagates() {
    let mut buf = Vec::new();
    push_record(&mut buf, 1, 1, 8, b"a", 1);
    push_record(&mut buf, 2, 2, 8, b"b", 1);
    let mut walk = DirWalk::start(buf);
    match walk.next() {
        WalkStep::Entry(e) => assert_eq!(e.name, b"a".to_vec()),
        _ => panic!("expected the first entry"),
    }
    // The sink fails before anything was consumed: the failure is the
    // caller's answer.
    assert!(walk.failure_propagates());
}

#[test]
fn test_sink_failure_after_progress_is_swallowed() {
    let mut buf = Vec::new();
    push_record(&mut buf, 1, 1, 8, b"a", 1);
    push_record(&mut buf, 2, 2, 8, b"b", 1);
    push_record(&mut buf, 3, 3, 8, b"c", 1);
    let mut walk = DirWalk::start(buf);

    let mut delivered = Vec::new();
    for _ in 0..2 {
        match walk.next() {
            WalkStep::Entry(e) => {
                delivered.push(e.name);
                walk.consume();
            }
            _ => panic!("expected an entry"),
        }
    }
    match walk.next() {
        WalkStep::Entry(e) => assert_eq!(e.name, b"c".to_vec()),
        _ => panic!("expected the third entry"),
    }
    // The sink fails on the third record: the two already delivered stay
    // good and the call reports success.
    assert!(!walk.failure_propagates());
    assert_eq!(delivered, vec![b"a".to_vec(), b"b".to_vec()]);
}

#[test]
fn test_consumed_dots_count_as_progress() {
    // "." sits first, as it does in every real directory; once it has
    // been moved past, a sink failure on the first deliverable entry is
    // no longer the caller's answer.
    let mut buf = Vec::new();
    push_record(&mut buf, 1, 1, 4, b".", 1);
    push_record(&mut buf, 2, 2, 8, b"a", 1);
    let mut walk = DirWalk::start(buf);
    match walk.next() {
        WalkStep::Entry(e) => assert_eq!(e.name, b"a".to_vec()),
        _ => panic!("expected an entry"),
    }
    assert!(!walk.failure_propagates());
}

#[test]
fn test_sink_full_stops_without_failure() {
    let mut buf = Vec::new();
    push_record(&mut buf, 1, 1, 8, b"a", 1);
    push_record(&mut buf, 2, 2, 8, b"b", 1);
    let mut walk = DirWalk::start(buf);
    match walk.next() {
        WalkStep::Entry(e) => assert_eq!(e.name, b"a".to_vec()),
        _ => panic!("expected an entry"),
    }
    // The sink reports a full reply for the first entry: the entry is not
    // consumed, and the call simply ends with what it has.
}

#[test]
fn test_listing_reference_bookkeeping() {
    // A plain listing gives the resolve's reference back at once; the
    // richer variant keeps it, unless the reply was full and the entry
    // never reached the caller.
    assert!(release_ref_after_resolve(false));
    assert!(!release_ref_after_resolve(true));
    assert!(release_ref_after_outcome(true, 0));
    assert!(!release_ref_after_outcome(true, 128));
    assert!(!release_ref_after_outcome(false, 0));
}

#[test]
fn test_cookie_chained_listing_delivers_each_entry_once() {
    // One directory stream of five records, pseudo-entries included.
    let records: [(&[u8], u8); 5] = [
        (b".".as_slice(), 4),
        (b"..".as_slice(), 4),
        (b"alpha".as_slice(), 8),
        (b"beta".as_slice(), 4),
        (b"gamma".as_slice(), 8),
    ];

    // The whole stream in one read.
    let mut whole = Vec::new();
    for (i, (name, kind)) in records.iter().enumerate() {
        push_record(&mut whole, 100 + i as u64, 1 + i as u64, *kind, name, 2);
    }
    let all_at_once: Vec<Vec<u8>> =
        list_all(whole).unwrap().into_iter().map(|e| e.name).collect();

    // The same stream fragmented into three chained reads, as a small
    // reply size would fragment it; each read takes up at the cookie
    // where the one before left off.
    let cuts = [0usize, 1, 4, 5];
    let mut chained = Vec::new();
    for w in cuts.windows(2) {
        let mut buf = Vec::new();
        for i in w[0]..w[1] {
            let (name, kind) = records[i];
            push_record(&mut buf, 100 + i as u64, 1 + i as u64, kind, name, 2);
        }
        for e in list_all(buf).unwrap() {
            chained.push(e.name);
        }
    }

    assert_eq!(all_at_once, vec![b"alpha".to_vec(), b"beta".to_vec(), b"gamma".to_vec()]);
    assert_eq!(chained, all_at_once);
}
