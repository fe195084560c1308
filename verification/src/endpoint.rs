//! Finding the local daemon: from the address descriptor that it leaves
//! behind to the base URL of its control API.

use vstd::prelude::*;
use multiaddr::{AddrComponent, ToMultiaddr};
use crate::error::Error;
use crate::location::{parse, url_parsed};
use crate::text::{
    decimal,
    has_piece,
    push_decimal,
    same_text,
    split_text,
    text_view,
    texts,
};

verus! {

/// The directory under the user's home directory in which the daemon
/// keeps its files.
pub const DESCRIPTOR_DIR: &'static str = ".ipfs";

/// The file in `DESCRIPTOR_DIR` that holds the address of the daemon's
/// control API.
pub const DESCRIPTOR_FILE: &'static str = "api";

/// One component of a multi-protocol address, as far as the client reads
/// it: an IPv4 address by its four bytes, an IPv6 address by its text, a
/// TCP port, or anything else.
#[derive(Debug, PartialEq, Eq)]
pub enum AddrPart {
    Ip4(u8, u8, u8, u8),
    Ip6(String),
    Tcp(u16),
    Other,
}

/// What a component holds.
pub ghost enum AddrPartView {
    Ip4(u8, u8, u8, u8),
    Ip6(Seq<char>),
    Tcp(u16),
    Other,
}

impl View for AddrPart {
    type V = AddrPartView;

    open spec fn view(&self) -> AddrPartView {
        match self {
            AddrPart::Ip4(a, b, c, d) => AddrPartView::Ip4(*a, *b, *c, *d),
            AddrPart::Ip6(text) => AddrPartView::Ip6(text@),
            AddrPart::Tcp(port) => AddrPartView::Tcp(*port),
            AddrPart::Other => AddrPartView::Other,
        }
    }
}

/// The components of `parts`, each by what it holds.
pub open spec fn part_views(parts: Seq<AddrPart>) -> Seq<AddrPartView> {
    Seq::new(parts.len(), |i: int| parts[i]@)
}

/// The components that the `multiaddr` crate reads from the text of an
/// address, in order, if it reads the text at all. Of an IPv6 component it
/// is the text that `std` writes for the address.
pub uninterp spec fn multiaddr_parts(text: Seq<char>) -> Option<Seq<AddrPartView>>;

/// Whether a piece of the address text, cut at `/`, is the name of a
/// protocol that the `multiaddr` crate is not asked to read: `onion`, which
/// it does not implement, and `p2p` and `ipfs`, whose values it decodes
/// once more, and expects to decode, when it hands the components out. An
/// address with such a component gives no endpoint in any case.
pub open spec fn names_unread_protocol(text: Seq<char>) -> bool {
    ||| has_piece(text, '/', "onion"@)
    ||| has_piece(text, '/', "p2p"@)
    ||| has_piece(text, '/', "ipfs"@)
}

/// What the wrapper returned, by what the components hold.
pub open spec fn parts_outcome(r: Option<Vec<AddrPart>>) -> Option<Seq<AddrPartView>> {
    match r {
        Some(parts) => Some(part_views(parts@)),
        None => None,
    }
}

/// `to_multiaddr` on the text, then `iter` on the address: each component
/// is handed out as an `AddrPart`. The parser panics on an `onion`
/// component, and the iterator on a `p2p` or `ipfs` value that does not
/// read back, so that a text which names one of them is left out.
#[verifier::external_body]
fn parse_multiaddr(text: &str) -> (r: Option<Vec<AddrPart>>)
    requires
        !names_unread_protocol(text@),
    ensures
        parts_outcome(r) == multiaddr_parts(text@),
{
    let address = text.to_multiaddr().ok()?;
    let parts = address.iter().map(|component| match component {
        AddrComponent::IP4(ip) => {
            let [a, b, c, d] = ip.octets();
            AddrPart::Ip4(a, b, c, d)
        },
        AddrComponent::IP6(ip) => AddrPart::Ip6(ip.to_string()),
        AddrComponent::TCP(port) => AddrPart::Tcp(port),
        _ => AddrPart::Other,
    });
    Some(parts.collect())
}

/// The text of the host that a component gives, if it gives one: four
/// decimal numbers with dots between them for IPv4, the address text for
/// IPv6.
pub open spec fn host_of(part: AddrPartView) -> Option<Seq<char>> {
    match part {
        AddrPartView::Ip4(a, b, c, d) => Some(
            decimal(a as nat) + seq!['.'] + decimal(b as nat) + seq!['.'] + decimal(c as nat)
                + seq!['.'] + decimal(d as nat),
        ),
        AddrPartView::Ip6(text) => Some(text),
        _ => None,
    }
}

/// The port that a component gives, if it gives one.
pub open spec fn port_of(part: AddrPartView) -> Option<u16> {
    match part {
        AddrPartView::Tcp(port) => Some(port),
        _ => None,
    }
}

/// The hosts that the components give, in order.
pub open spec fn hosts(parts: Seq<AddrPartView>) -> Seq<Seq<char>> {
    parts.filter_map(|part: AddrPartView| host_of(part))
}

/// The ports that the components give, in order.
pub open spec fn ports(parts: Seq<AddrPartView>) -> Seq<u16> {
    parts.filter_map(|part: AddrPartView| port_of(part))
}

/// Whether every component is an IP address or a TCP port.
pub open spec fn all_understood(parts: Seq<AddrPartView>) -> bool {
    forall|i: int| 0 <= i < parts.len() ==> !(#[trigger] parts[i] is Other)
}

/// The URL text `http://<host>:<port>/`.
pub open spec fn http_base(host: Seq<char>, port: u16) -> Seq<char> {
    "http://"@ + host + seq![':'] + decimal(port as nat) + seq!['/']
}

/// The URL text that the components of an address stand for: it takes
/// exactly one IP address and exactly one TCP port, in either order, and
/// nothing else.
pub open spec fn endpoint_text(parts: Seq<AddrPartView>) -> Option<Seq<char>> {
    if all_understood(parts) && hosts(parts).len() == 1 && ports(parts).len() == 1 {
        Some(http_base(hosts(parts)[0], ports(parts)[0]))
    } else {
        None
    }
}

/// The text of the host that `part` gives, if it gives one.
fn host_text(part: &AddrPart) -> (r: Option<String>)
    ensures
        text_view(r) == host_of(part@),
{
    match part {
        AddrPart::Ip4(a, b, c, d) => {
            let mut text = String::new();
            push_decimal(&mut text, *a as u64);
            text.push('.');
            push_decimal(&mut text, *b as u64);
            text.push('.');
            push_decimal(&mut text, *c as u64);
            text.push('.');
            push_decimal(&mut text, *d as u64);
            Some(text)
        },
        AddrPart::Ip6(text) => Some(text.clone()),
        _ => None,
    }
}

/// The URL text that the components of an address stand for, if they are
/// one IP address and one TCP port.
pub fn endpoint_from_parts(parts: &Vec<AddrPart>) -> (r: Option<String>)
    ensures
        text_view(r) == endpoint_text(part_views(parts@)),
{
    let ghost views = part_views(parts@);
    let mut host: Option<String> = None;
    let mut port: Option<u16> = None;
    let mut i: usize = 0;
    while i < parts.len()
        invariant
            i <= parts.len(),
            views == part_views(parts@),
            all_understood(views.take(i as int)),
            hosts(views.take(i as int)).len() <= 1,
            ports(views.take(i as int)).len() <= 1,
            text_view(host) == (if hosts(views.take(i as int)).len() == 1 {
                Some(hosts(views.take(i as int))[0])
            } else {
                None
            }),
            port == (if ports(views.take(i as int)).len() == 1 {
                Some(ports(views.take(i as int))[0])
            } else {
                None
            }),
        decreases parts.len() - i,
    {
        proof {
            views.lemma_filter_map_take_succ(|part: AddrPartView| host_of(part), i as int);
            views.lemma_filter_map_take_succ(|part: AddrPartView| port_of(part), i as int);
            assert(views[i as int] == parts@[i as int]@);
            assert(views.take(i + 1)[i as int] == views[i as int]);
        }
        let ghost seen = views.take(i as int);
        let ghost next = views.take(i + 1);
        match &parts[i] {
            AddrPart::Tcp(p) => {
                if port.is_some() {
                    proof {
                        lemma_too_many(views, i + 1);
                    }
                    return None;
                }
                port = Some(*p);
            },
            AddrPart::Other => {
                proof {
                    lemma_not_understood(views, i as int);
                }
                return None;
            },
            part => {
                if host.is_some() {
                    proof {
                        lemma_too_many(views, i + 1);
                    }
                    return None;
                }
                host = host_text(part);
            },
        }
        assert(all_understood(next)) by {
            assert forall|j: int| 0 <= j < next.len() implies !(#[trigger] next[j] is Other) by {
                if j < i {
                    assert(seen[j] == next[j]);
                }
            }
        }
        i = i + 1;
    }
    assert(views.take(parts.len() as int) == views);
    match (host, port) {
        (Some(host), Some(port)) => {
            let mut text = String::from_str("http://");
            text.append(host.as_str());
            text.push(':');
            push_decimal(&mut text, port as u64);
            text.push('/');
            Some(text)
        },
        _ => None,
    }
}

/// An address with a component that is not understood stands for no
/// endpoint.
proof fn lemma_not_understood(parts: Seq<AddrPartView>, at: int)
    requires
        0 <= at < parts.len(),
        parts[at] is Other,
    ensures
        endpoint_text(parts) is None,
{
}

/// An address whose first components give more than one host, or more
/// than one port, stands for no endpoint.
proof fn lemma_too_many(parts: Seq<AddrPartView>, upto: int)
    requires
        0 <= upto <= parts.len(),
        hosts(parts.take(upto)).len() > 1 || ports(parts.take(upto)).len() > 1,
    ensures
        endpoint_text(parts) is None,
    decreases parts.len() - upto,
{
    if upto < parts.len() {
        parts.lemma_filter_map_take_succ(|part: AddrPartView| host_of(part), upto);
        parts.lemma_filter_map_take_succ(|part: AddrPartView| port_of(part), upto);
        lemma_too_many(parts, upto + 1);
    } else {
        assert(parts.take(upto) == parts);
    }
}

/// Among components that are all understood, each is a host or a port.
proof fn lemma_understood_parts_count(parts: Seq<AddrPartView>)
    requires
        all_understood(parts),
    ensures
        hosts(parts).len() + ports(parts).len() == parts.len(),
    decreases parts.len(),
{
    if parts.len() > 0 {
        let front = parts.drop_last();
        assert forall|i: int| 0 <= i < front.len() implies !(#[trigger] front[i] is Other) by {
            assert(front[i] == parts[i]);
        }
        lemma_understood_parts_count(front);
        assert(!(parts[parts.len() - 1] is Other));
    }
}

/// An address that stands for an endpoint has two components: an IP
/// address and a TCP port, in either order.
pub proof fn lemma_endpoint_has_two_parts(parts: Seq<AddrPartView>)
    requires
        endpoint_text(parts) is Some,
    ensures
        parts.len() == 2,
        (host_of(parts[0]) is Some && port_of(parts[1]) is Some) || (port_of(parts[0]) is Some
            && host_of(parts[1]) is Some),
{
    lemma_understood_parts_count(parts);
    reveal_with_fuel(Seq::filter_map, 3);
    assert(parts.drop_last().drop_last().len() == 0);
}

/// Whether one of `pieces` is `word`.
fn holds_word(pieces: &Vec<String>, word: &str) -> (r: bool)
    ensures
        r == exists|i: int| 0 <= i < pieces.len() && #[trigger] texts(pieces@)[i] == word@,
{
    let mut i: usize = 0;
    while i < pieces.len()
        invariant
            i <= pieces.len(),
            forall|j: int| 0 <= j < i ==> #[trigger] texts(pieces@)[j] != word@,
        decreases pieces.len() - i,
    {
        if same_text(pieces[i].as_str(), word) {
            assert(texts(pieces@)[i as int] == word@);
            return true;
        }
        assert(texts(pieces@)[i as int] == pieces@[i as int]@);
        i = i + 1;
    }
    false
}

/// Whether the address text names a protocol that is not handed to the
/// address parser.
pub fn mentions_unread_protocol(text: &str) -> (r: bool)
    ensures
        r == names_unread_protocol(text@),
{
    let pieces = split_text(text, '/');
    holds_word(&pieces, "onion") || holds_word(&pieces, "p2p") || holds_word(&pieces, "ipfs")
}

/// The base URL of the control API that an address descriptor stands
/// for, if it stands for one: the descriptor reads as a multi-protocol
/// address, its components are one IP address and one TCP port, and
/// `http://<ip>:<port>/` reads as a URL.
pub open spec fn local_api_url(descriptor: Seq<char>) -> Option<Seq<char>> {
    if names_unread_protocol(descriptor) {
        None
    } else {
        match multiaddr_parts(descriptor) {
            Some(parts) => match endpoint_text(parts) {
                Some(text) => url_parsed(text),
                None => None,
            },
            None => None,
        }
    }
}

/// The base URL of the local daemon's control API, read from the address
/// descriptor that the daemon keeps under the user's home directory, in
/// `DESCRIPTOR_FILE` of `DESCRIPTOR_DIR`. `descriptor` is what that file
/// holds, or `None` where it could not be read.
pub fn ipfs_api_url(descriptor: Option<&str>) -> (r: Result<String, Error>)
    ensures
        match r {
            Ok(url) => descriptor matches Some(text) && local_api_url(text@) == Some(url@),
            Err(e) => e == Error::LocalApiUnavailableError && (descriptor matches Some(
                text,
            ) ==> local_api_url(text@) is None),
        },
{
    let unavailable = Err(Error::LocalApiUnavailableError);
    let text = match descriptor {
        Some(text) => text,
        None => return unavailable,
    };
    if mentions_unread_protocol(text) {
        return unavailable;
    }
    let parts = match parse_multiaddr(text) {
        Some(parts) => parts,
        None => return unavailable,
    };
    let candidate = match endpoint_from_parts(&parts) {
        Some(candidate) => candidate,
        None => return unavailable,
    };
    match parse(candidate.as_str()) {
        Some(url) => Ok(url),
        None => unavailable,
    }
}

} // verus!
