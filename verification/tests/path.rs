use ipfs_client::error::Error;
use ipfs_client::path::{parse_ipfs_path, IpfsPath, PathType, Prefix};
use ipfs_client::text::split_text;

fn prefix(path: &str) -> Prefix {
    Prefix { path: path.to_string() }
}

#[test]
fn known_tokens_name_their_path_type() {
    assert_eq!(PathType::parse("ipfs"), Ok(PathType::Ipfs));
    assert_eq!(PathType::parse("ipns"), Ok(PathType::Ipns));
}

#[test]
fn unknown_tokens_are_refused() {
    for token in ["", "IPFS", "ipfs ", " ipfs", "ipld", "ipf", "ipfss", "/ipfs", "ipns/"] {
        assert_eq!(PathType::parse(token), Err(Error::IpfsPathParseError));
    }
}

#[test]
fn path_type_is_read_back_from_its_name() {
    for path_type in [PathType::Ipfs, PathType::Ipns] {
        assert_eq!(PathType::parse(path_type.name()), Ok(path_type));
    }
    assert_eq!(PathType::Ipfs.name(), "ipfs");
    assert_eq!(PathType::Ipns.name(), "ipns");
}

#[test]
fn path_of_one_segment() {
    let path = parse_ipfs_path(prefix("QmHash"), "ipfs").unwrap();
    assert_eq!(path.path_type(), PathType::Ipfs);
    assert_eq!(path.segments(), &vec!["QmHash".to_string()]);
    assert_eq!(path.prefix(), &prefix("QmHash"));
    assert_eq!(path.to_string(), "/ipfs/QmHash");
}

#[test]
fn path_of_several_segments() {
    let path = parse_ipfs_path(prefix("example.org/docs/index.html"), "ipns").unwrap();
    assert_eq!(path.path_type(), PathType::Ipns);
    assert_eq!(
        path.segments(),
        &vec!["example.org".to_string(), "docs".to_string(), "index.html".to_string()]
    );
    assert_eq!(path.to_string(), "/ipns/example.org/docs/index.html");
}

#[test]
fn path_with_unknown_type_is_refused() {
    assert_eq!(parse_ipfs_path(prefix("QmHash"), "http"), Err(Error::IpfsPathParseError));
    assert_eq!(parse_ipfs_path(prefix("QmHash"), ""), Err(Error::IpfsPathParseError));
}

#[test]
fn path_with_empty_segment_is_refused() {
    for text in ["", "/", "/QmHash", "QmHash/", "QmHash//a", "//"] {
        assert_eq!(parse_ipfs_path(prefix(text), "ipfs"), Err(Error::IpfsPathParseError));
        assert_eq!(IpfsPath::parse(prefix(text), PathType::Ipfs), None);
    }
}

#[test]
fn path_text_reads_back_as_the_path() {
    let path = parse_ipfs_path(prefix("QmHash/a/b"), "ipfs").unwrap();
    let pieces = split_text(&path.to_string(), '/');
    assert_eq!(pieces[0], "");
    assert_eq!(PathType::parse(&pieces[1]), Ok(path.path_type()));
    assert_eq!(&pieces[2..], path.segments().as_slice());
    let again = IpfsPath::parse(prefix(&pieces[2..].join("/")), PathType::Ipfs).unwrap();
    assert_eq!(again, path);
}
