//! Paths to content: the namespace a path lives in and its segments.

use vstd::prelude::*;
use crate::error::Error;
use crate::text::{
    join,
    lemma_join_split,
    lemma_split_around,
    lemma_split_whole,
    same_text,
    split,
    split_text,
    texts,
};

verus! {

/// The namespace of a path: content addressed by its identifier, or by a
/// name that is published for it.
#[derive(Debug, Clone, Copy, PartialEq, Eq, Structural)]
pub enum PathType {
    Ipfs,
    Ipns,
}

impl PathType {
    /// The token that names the path type in a path.
    pub open spec fn token(self) -> Seq<char> {
        match self {
            PathType::Ipfs => "ipfs"@,
            PathType::Ipns => "ipns"@,
        }
    }

    /// The path type that a token names, if it names one.
    pub open spec fn of_token(token: Seq<char>) -> Option<PathType> {
        if token == "ipfs"@ {
            Some(PathType::Ipfs)
        } else if token == "ipns"@ {
            Some(PathType::Ipns)
        } else {
            None
        }
    }

    /// Reads a path type from its token. Any other text is refused.
    pub fn parse(token: &str) -> (r: Result<PathType, Error>)
        ensures
            match r {
                Ok(path_type) => PathType::of_token(token@) == Some(path_type),
                Err(e) => e == Error::IpfsPathParseError && PathType::of_token(token@) is None,
            },
    {
        if same_text(token, "ipfs") {
            Ok(PathType::Ipfs)
        } else if same_text(token, "ipns") {
            Ok(PathType::Ipns)
        } else {
            Err(Error::IpfsPathParseError)
        }
    }

    /// The token that names the path type in a path.
    pub fn name(self) -> (r: &'static str)
        ensures
            r@ == self.token(),
    {
        match self {
            PathType::Ipfs => "ipfs",
            PathType::Ipns => "ipns",
        }
    }
}

/// Each path type is read back from its own token, and the tokens hold no
/// separator.
pub proof fn lemma_token_names_its_type(path_type: PathType)
    ensures
        PathType::of_token(path_type.token()) == Some(path_type),
        path_type.token().len() == 4,
        forall|i: int| 0 <= i < 4 ==> path_type.token()[i] != '/',
{
    reveal_strlit("ipfs");
    reveal_strlit("ipns");
    assert("ipns"@[2] != "ipfs"@[2]);
}

/// The part of a path that follows its path type: segments with a `/`
/// between neighbours, as the caller knows it from its context.
#[derive(Debug, PartialEq, Eq)]
pub struct Prefix {
    pub path: String,
}

/// What a path holds.
pub ghost struct IpfsPathView {
    pub prefix: Seq<char>,
    pub path_type: PathType,
    pub segments: Seq<Seq<char>>,
}

/// Whether `/` cuts `prefix` into segments none of which is empty.
pub open spec fn has_full_segments(prefix: Seq<char>) -> bool {
    forall|i: int| 0 <= i < split(prefix, '/').len() ==> (#[trigger] split(prefix, '/')[i]).len() > 0
}

impl IpfsPathView {
    /// The segments are those of the prefix, one at least and none empty.
    pub open spec fn is_valid(self) -> bool {
        &&& self.segments == split(self.prefix, '/')
        &&& has_full_segments(self.prefix)
    }

    /// The path as text: `/`, the path type, `/`, the prefix.
    pub open spec fn text(self) -> Seq<char> {
        seq!['/'] + self.path_type.token() + seq!['/'] + self.prefix
    }

    /// The path that a prefix and a path type make, if they make one.
    pub open spec fn of_parts(prefix: Seq<char>, path_type: PathType) -> Option<IpfsPathView> {
        if has_full_segments(prefix) {
            Some(IpfsPathView { prefix, path_type, segments: split(prefix, '/') })
        } else {
            None
        }
    }
}

/// A path to content: a path type and one or more segments. It is made by
/// `IpfsPath::parse` only, so that each value of it is valid.
#[derive(Debug, PartialEq, Eq)]
pub struct IpfsPath {
    prefix: Prefix,
    path_type: PathType,
    segments: Vec<String>,
}

impl View for IpfsPath {
    type V = IpfsPathView;

    closed spec fn view(&self) -> IpfsPathView {
        IpfsPathView {
            prefix: self.prefix.path@,
            path_type: self.path_type,
            segments: texts(self.segments@),
        }
    }
}

/// The view of a path that may be missing.
pub open spec fn path_view(path: Option<IpfsPath>) -> Option<IpfsPathView> {
    match path {
        Some(p) => Some(p@),
        None => None,
    }
}

impl IpfsPath {
    #[verifier::type_invariant]
    spec fn holds_valid(self) -> bool {
        self@.is_valid()
    }

    /// Makes a path of a prefix and a path type. A prefix with an empty
    /// segment is refused: an empty prefix, one that starts or ends with
    /// `/`, one with `//` inside.
    pub fn parse(prefix: Prefix, path_type: PathType) -> (r: Option<IpfsPath>)
        ensures
            path_view(r) == IpfsPathView::of_parts(prefix.path@, path_type),
    {
        let segments = split_text(prefix.path.as_str(), '/');
        let mut i: usize = 0;
        while i < segments.len()
            invariant
                i <= segments.len(),
                texts(segments@) == split(prefix.path@, '/'),
                forall|j: int| 0 <= j < i ==> (#[trigger] split(prefix.path@, '/')[j]).len() > 0,
            decreases segments.len() - i,
        {
            if segments[i].as_str().is_empty() {
                assert(texts(segments@)[i as int] == segments@[i as int]@);
                assert(split(prefix.path@, '/')[i as int].len() == 0);
                return None;
            }
            assert(texts(segments@)[i as int] == segments@[i as int]@);
            i = i + 1;
        }
        Some(IpfsPath { prefix, path_type, segments })
    }

    /// The namespace of the path.
    pub fn path_type(&self) -> (r: PathType)
        ensures
            r == self@.path_type,
            self@.is_valid(),
    {
        proof {
            use_type_invariant(self);
        }
        self.path_type
    }

    /// The prefix that the path was made of.
    pub fn prefix(&self) -> (r: &Prefix)
        ensures
            r.path@ == self@.prefix,
            self@.is_valid(),
    {
        proof {
            use_type_invariant(self);
        }
        &self.prefix
    }

    /// The segments of the path, in order.
    pub fn segments(&self) -> (r: &Vec<String>)
        ensures
            texts(r@) == self@.segments,
            self@.is_valid(),
    {
        proof {
            use_type_invariant(self);
        }
        &self.segments
    }

    /// The path as text: `/`, the path type, `/`, the prefix.
    pub fn to_string(&self) -> (r: String)
        ensures
            r@ == self@.text(),
            self@.is_valid(),
    {
        proof {
            use_type_invariant(self);
        }
        let mut text = String::new();
        text.push('/');
        text.append(self.path_type.name());
        text.push('/');
        text.append(self.prefix.path.as_str());
        assert(text@ == self@.text());
        text
    }
}

/// Reads a path type from its token and makes a path of it and the
/// prefix. An unknown token is refused, and so is a prefix with an empty
/// segment.
pub fn parse_ipfs_path(prefix: Prefix, path_type: &str) -> (r: Result<IpfsPath, Error>)
    ensures
        match r {
            Ok(path) => PathType::of_token(path_type@) matches Some(t) && IpfsPathView::of_parts(
                prefix.path@,
                t,
            ) == Some(path@),
            Err(e) => e == Error::IpfsPathParseError && (PathType::of_token(path_type@) matches Some(t)
                ==> IpfsPathView::of_parts(prefix.path@, t) is None),
        },
{
    match PathType::parse(path_type) {
        Ok(t) => match IpfsPath::parse(prefix, t) {
            Some(path) => Ok(path),
            None => Err(Error::IpfsPathParseError),
        },
        Err(_) => Err(Error::IpfsPathParseError),
    }
}

/// The text of a valid path reads back as the path: cut at `/`, it gives an
/// empty piece, the token of the path type and the segments, and the
/// segments joined are the prefix.
pub proof fn lemma_path_text_reads_back(path: IpfsPathView)
    requires
        path.is_valid(),
    ensures
        split(path.text(), '/') == seq![Seq::<char>::empty(), path.path_type.token()]
            + path.segments,
        PathType::of_token(split(path.text(), '/')[1]) == Some(path.path_type),
        IpfsPathView::of_parts(join(split(path.text(), '/').skip(2), '/'), path.path_type) == Some(
            path,
        ),
{
    let token = path.path_type.token();
    let empty = Seq::<char>::empty();
    lemma_token_names_its_type(path.path_type);
    lemma_split_whole(token, '/');
    let rest = token.push('/') + path.prefix;
    lemma_split_around(token, path.prefix, '/');
    lemma_split_around(empty, rest, '/');
    assert(empty.push('/') + rest == path.text());
    assert(split(empty, '/') == seq![empty]);
    let pieces = split(path.text(), '/');
    assert(pieces == seq![empty] + (seq![token] + path.segments));
    assert(pieces == seq![empty, token] + path.segments);
    assert(pieces.skip(2) == path.segments);
    lemma_join_split(path.prefix, '/');
}

} // verus!
