use std::io::Read;
use std::io::Write;

use rs_tar2tar::file_type::FileType;
use rs_tar2tar::filter::SimpleFilter;
use rs_tar2tar::tar2items::Action;
use rs_tar2tar::tar2items::FileTypeLike;
use rs_tar2tar::tar2items::HeaderField;
use rs_tar2tar::tar2items::HeaderLike;
use rs_tar2tar::tar2items::Phase;
use rs_tar2tar::tar2items::RawEntry;
use rs_tar2tar::tar2items::Transcoder;

fn gnu_header(path: &str, size: u64) -> tar::Header {
    let mut h = tar::Header::new_gnu();
    h.set_path(path).unwrap();
    h.set_size(size);
    h.set_mode(0o644);
    h.set_uid(0);
    h.set_gid(0);
    h.set_mtime(0);
    h.set_device_major(0).unwrap();
    h.set_device_minor(0).unwrap();
    h.set_cksum();
    h
}

fn archive(headers: Vec<(tar::Header, &[u8])>) -> Vec<u8> {
    let mut b = tar::Builder::new(Vec::new());
    for (h, data) in headers {
        b.append(&h, data).unwrap();
    }
    b.into_inner().unwrap()
}

fn abc() -> Vec<u8> {
    archive(vec![
        (gnu_header("a.txt", 3), &b"aaa"[..]),
        (gnu_header("b.jpg", 600), &[7u8; 600][..]),
        (gnu_header("c.txt", 1), &b"c"[..]),
    ])
}

fn raw_entry<R: Read>(item: &tar::Entry<R>) -> RawEntry {
    RawEntry {
        block: *item.header().as_bytes(),
        path: item.path_bytes().into_owned(),
        link_name: item.link_name_bytes().map(|c| c.into_owned()),
        size: item.size(),
    }
}

struct Outcome {
    result: Result<Vec<u8>, String>,
    warnings: usize,
    seen: usize,
}

fn run(input: &[u8], filter: SimpleFilter, verbose: bool) -> Outcome {
    let mut out = tar::Builder::new(Vec::new());
    let mut rdr = tar::Archive::new(input);
    let mut t = Transcoder::new(filter, verbose);
    let mut warnings = 0;
    let mut seen = 0;
    for ritem in rdr.entries().unwrap() {
        let item = ritem.unwrap();
        let raw = raw_entry(&item);
        let (action, w) = t.step(&raw);
        warnings += w.len();
        seen += 1;
        match action {
            Action::Copy => {
                let h = tar::Header::from_byte_slice(&raw.block);
                out.append(h, item).unwrap();
            }
            Action::Skip => {}
            Action::Abort(e) => {
                assert_eq!(t.phase(), Phase::Aborted);
                return Outcome { result: Err(format!("{:?}", e.field)), warnings, seen };
            }
            Action::Finalize => unreachable!(),
        }
    }
    assert!(matches!(t.finish(), Action::Finalize));
    assert_eq!(t.phase(), Phase::Finalized);
    let mut bytes = out.into_inner().unwrap();
    bytes.flush().unwrap();
    Outcome { result: Ok(bytes), warnings, seen }
}

fn listing(bytes: &[u8]) -> Vec<(Vec<u8>, Vec<u8>, Vec<u8>)> {
    let mut rdr = tar::Archive::new(bytes);
    let mut v = Vec::new();
    for e in rdr.entries().unwrap() {
        let mut e = e.unwrap();
        let block = e.header().as_bytes().to_vec();
        let path = e.path_bytes().into_owned();
        let mut body = Vec::new();
        e.read_to_end(&mut body).unwrap();
        v.push((block, path, body));
    }
    v
}

#[test]
fn scenario_keep_txt() {
    let input = abc();
    let out = run(&input, SimpleFilter::Suffix(b".txt".to_vec(), true), true).result.unwrap();
    let before = listing(&input);
    let after = listing(&out);
    assert_eq!(after.len(), 2);
    assert_eq!(after[0], before[0]);
    assert_eq!(after[1], before[2]);
    assert_eq!(after[0].1, b"a.txt".to_vec());
    assert_eq!(after[1].1, b"c.txt".to_vec());
}

#[test]
fn scenario_drop_jpg() {
    let input = abc();
    let out = run(&input, SimpleFilter::Suffix(b".jpg".to_vec(), false), true).result.unwrap();
    let paths: Vec<Vec<u8>> = listing(&out).into_iter().map(|e| e.1).collect();
    assert_eq!(paths, vec![b"a.txt".to_vec(), b"c.txt".to_vec()]);
}

#[test]
fn scenario_keep_all_is_identity() {
    let input = abc();
    let out = run(&input, SimpleFilter::KeepAll, true).result.unwrap();
    assert_eq!(out, input);
}

#[test]
fn rerun_removes_nothing_more() {
    let input = abc();
    let cfg = || SimpleFilter::SufPrefixEither(b".txt".to_vec(), b"a".to_vec(), true);
    let once = run(&input, cfg(), false).result.unwrap();
    let twice = run(&once, cfg(), false).result.unwrap();
    assert_eq!(listing(&once).len(), 1);
    assert_eq!(once, twice);
}

#[test]
fn bad_device_number_is_recovered() {
    let mut h = gnu_header("dev.txt", 0);
    h.as_mut_bytes()[329..337].copy_from_slice(b"zzzzzzz\0");
    h.set_cksum();
    let raw = RawEntry { block: *h.as_bytes(), path: b"dev.txt".to_vec(), link_name: None, size: 0 };
    let n = raw.to_header(true).ok().unwrap();
    assert_eq!(n.header.dev_major, None);
    assert_eq!(n.warnings.len(), 1);
    assert_eq!(raw.to_header(false).ok().unwrap().warnings.len(), 0);

    let input = archive(vec![(h, &b""[..]), (gnu_header("next.txt", 1), &b"n"[..])]);
    let o = run(&input, SimpleFilter::KeepAll, true);
    assert_eq!(o.warnings, 1);
    assert_eq!(o.seen, 2);
    let paths: Vec<Vec<u8>> = listing(&o.result.unwrap()).into_iter().map(|e| e.1).collect();
    assert_eq!(paths, vec![b"dev.txt".to_vec(), b"next.txt".to_vec()]);
}

#[test]
fn corrupt_mode_aborts_the_run() {
    let mut h = gnu_header("bad.txt", 1);
    h.as_mut_bytes()[100..108].copy_from_slice(b"zzzzzzz\0");
    h.set_cksum();
    let input = archive(vec![
        (gnu_header("a.txt", 1), &b"a"[..]),
        (h, &b"b"[..]),
        (gnu_header("c.txt", 1), &b"c"[..]),
    ]);
    let o = run(&input, SimpleFilter::KeepAll, true);
    assert_eq!(o.result, Err("Mode".to_string()));
    assert_eq!(o.seen, 2);
}

#[test]
fn corrupt_uid_reports_its_field() {
    let mut h = gnu_header("bad.txt", 1);
    h.as_mut_bytes()[108..116].copy_from_slice(b"zzzzzzz\0");
    h.set_cksum();
    let raw = RawEntry { block: *h.as_bytes(), path: b"bad.txt".to_vec(), link_name: None, size: 1 };
    match raw.to_header(true) {
        Err(e) => assert_eq!(e.field, HeaderField::Uid),
        Ok(_) => panic!("uid should not decode"),
    }
}

#[test]
fn header_fields_are_decoded() {
    let mut h = tar::Header::new_gnu();
    h.set_path("d/").unwrap();
    h.set_entry_type(tar::EntryType::Directory);
    h.set_size(0);
    h.set_mode(0o750);
    h.set_uid(1000);
    h.set_gid(100);
    h.set_mtime(1_234_567);
    h.set_username("alice").unwrap();
    h.set_groupname("staff").unwrap();
    h.set_device_major(8).unwrap();
    h.set_device_minor(3).unwrap();
    h.set_cksum();
    let raw = RawEntry { block: *h.as_bytes(), path: b"d/".to_vec(), link_name: None, size: 0 };
    assert_eq!(raw.to_file_type(), FileType::Directory);
    let n = raw.to_header(true).ok().unwrap();
    let hd = n.header;
    assert_eq!(hd.file_type, FileType::Directory);
    assert_eq!(hd.path_name, b"d/".to_vec());
    assert_eq!(hd.entry_size, 0);
    assert_eq!(hd.mode, 0o750);
    assert_eq!(hd.uid, 1000);
    assert_eq!(hd.gid, 100);
    assert_eq!(hd.modified, 1_234_567);
    assert_eq!(hd.uname, Some(b"alice".to_vec()));
    assert_eq!(hd.gname, Some(b"staff".to_vec()));
    assert_eq!(hd.dev_major, Some(8));
    assert_eq!(hd.dev_minor, Some(3));
    assert!(n.warnings.is_empty());
}

#[test]
fn entry_size_is_decoded() {
    let h = gnu_header("f", 600);
    let raw = RawEntry { block: *h.as_bytes(), path: b"f".to_vec(), link_name: None, size: 600 };
    assert_eq!(raw.to_header(false).ok().unwrap().header.entry_size, 600);
}

#[test]
fn type_codes() {
    let mut h = gnu_header("l", 0);
    h.set_entry_type(tar::EntryType::Symlink);
    let raw = RawEntry { block: *h.as_bytes(), path: b"l".to_vec(), link_name: None, size: 0 };
    assert_eq!(raw.to_file_type(), FileType::Symlink);
    let mut block = *h.as_bytes();
    block[156] = 0;
    let raw = RawEntry { block, path: b"l".to_vec(), link_name: None, size: 0 };
    assert_eq!(raw.to_file_type(), FileType::Regular);
    block[156] = b'x';
    let raw = RawEntry { block, path: b"l".to_vec(), link_name: None, size: 0 };
    assert_eq!(raw.to_file_type(), FileType::Raw(b'x'));
}

#[test]
fn link_target_only_for_links() {
    let h = gnu_header("plain.txt", 0);
    let raw = RawEntry {
        block: *h.as_bytes(),
        path: b"plain.txt".to_vec(),
        link_name: Some(b"target".to_vec()),
        size: 0,
    };
    assert_eq!(raw.to_header(false).ok().unwrap().header.link_name, None);

    let mut s = gnu_header("ln", 0);
    s.set_entry_type(tar::EntryType::Symlink);
    s.set_cksum();
    let raw = RawEntry {
        block: *s.as_bytes(),
        path: b"ln".to_vec(),
        link_name: Some(b"target".to_vec()),
        size: 0,
    };
    assert_eq!(raw.to_header(false).ok().unwrap().header.link_name, Some(b"target".to_vec()));

    let mut l = gnu_header("hard", 0);
    l.set_entry_type(tar::EntryType::Link);
    l.set_cksum();
    let raw = RawEntry {
        block: *l.as_bytes(),
        path: b"hard".to_vec(),
        link_name: Some(b"plain.txt".to_vec()),
        size: 0,
    };
    let hd = raw.to_header(false).ok().unwrap().header;
    assert_eq!(hd.file_type, FileType::Link);
    assert_eq!(hd.link_name, Some(b"plain.txt".to_vec()));
}

#[test]
fn names_absent_in_old_format() {
    let mut h = tar::Header::new_old();
    h.set_path("old.txt").unwrap();
    h.set_size(0);
    h.set_mode(0o644);
    h.set_uid(0);
    h.set_gid(0);
    h.set_mtime(0);
    h.set_cksum();
    let raw = RawEntry { block: *h.as_bytes(), path: b"old.txt".to_vec(), link_name: None, size: 0 };
    let n = raw.to_header(true).ok().unwrap();
    assert_eq!(n.header.uname, None);
    assert_eq!(n.header.gname, None);
    assert_eq!(n.header.dev_major, None);
    assert_eq!(n.header.dev_minor, None);
}
