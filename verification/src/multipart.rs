//! Uploads as multipart bodies: the boundary, the chunk that opens the
//! body, the chunk that closes it, and an encoder that passes a payload
//! through between the two, chunk by chunk.

use vstd::prelude::*;
use vstd::utf8::encode_utf8;
use crate::error::Error;
use crate::text::{decimal, push_decimal, text_result, text_view};

verus! {

/// The generator of `rand` that `multipart_boundary` draws from.
#[verifier::external_type_specification]
#[verifier::external_body]
pub struct ExSmallRng(rand::rngs::SmallRng);

/// The number of random characters in a boundary.
pub const BOUNDARY_TOKEN_LEN: usize = 18;

/// Whether `c` is an ASCII letter or digit.
pub open spec fn is_alphanumeric(c: char) -> bool {
    ('a' <= c <= 'z') || ('A' <= c <= 'Z') || ('0' <= c <= '9')
}

/// Whether `token` is made of `BOUNDARY_TOKEN_LEN` ASCII letters and
/// digits.
pub open spec fn is_boundary_token(token: Seq<char>) -> bool {
    &&& token.len() == BOUNDARY_TOKEN_LEN
    &&& forall|i: int| 0 <= i < token.len() ==> is_alphanumeric(#[trigger] token[i])
}

/// The boundary that a token makes: twenty-four dashes, then the token.
pub open spec fn boundary_of(token: Seq<char>) -> Seq<char> {
    "------------------------"@ + token
}

/// Whether `boundary` is twenty-four dashes and a token of
/// `BOUNDARY_TOKEN_LEN` ASCII letters and digits.
pub open spec fn is_boundary(boundary: Seq<char>) -> bool {
    exists|token: Seq<char>| is_boundary_token(token) && boundary == #[trigger] boundary_of(token)
}

/// A boundary has forty-two characters, each a dash, an ASCII letter or a
/// digit: it holds no line break and nothing that ends a header value.
pub proof fn lemma_boundary_shape(boundary: Seq<char>)
    requires
        is_boundary(boundary),
    ensures
        boundary.len() == 24 + BOUNDARY_TOKEN_LEN,
        forall|i: int|
            0 <= i < boundary.len() ==> #[trigger] boundary[i] == '-' || is_alphanumeric(
                boundary[i],
            ),
{
    reveal_strlit("------------------------");
    let token = choose|token: Seq<char>|
        is_boundary_token(token) && boundary == #[trigger] boundary_of(token);
    assert forall|i: int| 0 <= i < boundary.len() implies #[trigger] boundary[i] == '-'
        || is_alphanumeric(boundary[i]) by {
        if i >= 24 {
            assert(boundary[i] == token[i - 24]);
        }
    }
}

/// `SmallRng::from_rng` on a new `EntropyRng`: a generator seeded by the
/// operating system, or nothing where it gives no entropy.
#[verifier::external_body]
fn seeded_rng() -> Option<rand::rngs::SmallRng> {
    rand::SeedableRng::from_rng(rand::rngs::EntropyRng::new()).ok()
}

/// `sample_iter` with the `Alphanumeric` distribution, taken `count`
/// times: as many characters, each an ASCII letter or digit.
#[verifier::external_body]
fn sample_alphanumeric(rng: &mut rand::rngs::SmallRng, count: usize) -> (r: String)
    ensures
        r@.len() == count,
        forall|i: int| 0 <= i < r@.len() ==> is_alphanumeric(#[trigger] r@[i]),
{
    rand::Rng::sample_iter(rng, &rand::distributions::Alphanumeric).take(count).collect()
}

/// The boundary that `token` makes.
pub fn boundary_with(token: &str) -> (r: String)
    ensures
        r@ == boundary_of(token@),
{
    let mut boundary = String::from_str("------------------------");
    boundary.append(token);
    boundary
}

/// The boundary that a drawn token makes, or the report that there was no
/// entropy to draw one from.
pub open spec fn boundary_for(token: Option<Seq<char>>) -> Result<Seq<char>, Error> {
    match token {
        Some(token) => Ok(boundary_of(token)),
        None => Err(Error::EntropyUnavailableError),
    }
}

/// The boundary that a drawn token makes. `token` is `None` where the
/// operating system gave no entropy to draw from.
pub fn boundary_from(token: Option<String>) -> (r: Result<String, Error>)
    ensures
        text_result(r) == boundary_for(text_view(token)),
{
    match token {
        Some(token) => Ok(boundary_with(token.as_str())),
        None => Err(Error::EntropyUnavailableError),
    }
}

/// Draws the token of a boundary from a generator that is seeded anew.
fn draw_token() -> (r: Option<String>)
    ensures
        r matches Some(token) ==> is_boundary_token(token@),
{
    token_of(seeded_rng())
}

/// The token that a seeded generator gives: there is one exactly where
/// there is a generator, and it has `BOUNDARY_TOKEN_LEN` ASCII letters and
/// digits.
fn token_of(rng: Option<rand::rngs::SmallRng>) -> (r: Option<String>)
    ensures
        r is Some <==> rng is Some,
        r matches Some(token) ==> is_boundary_token(token@),
{
    match rng {
        Some(mut rng) => Some(sample_alphanumeric(&mut rng, BOUNDARY_TOKEN_LEN)),
        None => None,
    }
}

/// A fresh boundary: twenty-four dashes and eighteen letters and digits
/// drawn at random, from a generator that is seeded anew on each call.
pub fn multipart_boundary() -> (r: Result<String, Error>)
    ensures
        match r {
            Ok(boundary) => is_boundary(boundary@),
            Err(e) => e == Error::EntropyUnavailableError,
        },
{
    boundary_from(draw_token())
}

/// The end of a line.
pub open spec fn line_break() -> Seq<char> {
    "\r\n"@
}

/// The header line that declares the length of the body.
pub open spec fn content_length_line(length: u64) -> Seq<char> {
    "Content-Length: "@ + decimal(length as nat)
}

/// The header line that declares the body as multipart with `boundary`.
pub open spec fn content_type_line(boundary: Seq<char>) -> Seq<char> {
    "Content-Type: multipart/form-data; boundary="@ + boundary
}

/// The lines that open the body: the request line, the host, the length
/// where it is known, the content type.
pub open spec fn header_lines(length: Option<u64>, boundary: Seq<char>) -> Seq<Seq<char>> {
    match length {
        Some(n) => seq![
            "POST /api/v0/add HTTP/1.1"@,
            "Host: localhost:5001"@,
            content_length_line(n),
            content_type_line(boundary),
        ],
        None => seq![
            "POST /api/v0/add HTTP/1.1"@,
            "Host: localhost:5001"@,
            content_type_line(boundary),
        ],
    }
}

/// The lines as one text, each with a line break after it.
pub open spec fn lines_text(lines: Seq<Seq<char>>) -> Seq<char>
    decreases lines.len(),
{
    if lines.len() == 0 {
        Seq::<char>::empty()
    } else {
        lines_text(lines.drop_last()) + lines.last() + line_break()
    }
}

/// The chunk that opens the body: the header lines, the opening
/// delimiter and an empty line.
pub open spec fn preamble(length: Option<u64>, boundary: Seq<char>) -> Seq<char> {
    lines_text(header_lines(length, boundary)) + "--"@ + boundary + line_break() + line_break()
}

/// The chunk that closes the body: the closing delimiter and a line
/// break. The line break that a multipart parser expects before the
/// closing delimiter is not part of this chunk.
pub open spec fn terminator(boundary: Seq<char>) -> Seq<char> {
    "--"@ + boundary + "--"@ + line_break()
}

/// The chunk that opens a multipart body with `boundary`. It declares the
/// length of the body where the caller knows it.
pub fn multipart_begin(length: Option<u64>, boundary: &str) -> (r: String)
    ensures
        r@ == preamble(length, boundary@),
{
    let mut begin = String::new();
    begin.append("POST /api/v0/add HTTP/1.1");
    begin.append("\r\n");
    begin.append("Host: localhost:5001");
    begin.append("\r\n");
    if let Some(n) = length {
        begin.append("Content-Length: ");
        push_decimal(&mut begin, n);
        begin.append("\r\n");
    }
    begin.append("Content-Type: multipart/form-data; boundary=");
    begin.append(boundary);
    begin.append("\r\n");
    proof {
        let lines = header_lines(length, boundary@);
        reveal_with_fuel(lines_text, 5);
        if length is Some {
            assert(lines.drop_last().drop_last().drop_last().drop_last().len() == 0);
        } else {
            assert(lines.drop_last().drop_last().drop_last().len() == 0);
        }
        assert(begin@ == lines_text(lines));
    }
    begin.append("--");
    begin.append(boundary);
    begin.append("\r\n");
    begin.append("\r\n");
    begin
}

/// The chunk that closes a multipart body with `boundary`.
pub fn multipart_end(boundary: &str) -> (r: String)
    ensures
        r@ == terminator(boundary@),
{
    let mut end = String::from_str("--");
    end.append(boundary);
    end.append("--");
    end.append("\r\n");
    end
}

/// Whether a header line declares the length of the body.
pub open spec fn names_content_length(line: Seq<char>) -> bool {
    "Content-Length:"@.is_prefix_of(line)
}

/// The chunk that opens the body declares the length of the body once,
/// with the number that the caller gave, where the caller gave one, and
/// not at all where the caller gave none.
pub proof fn lemma_content_length_declared(length: Option<u64>, boundary: Seq<char>)
    ensures
        header_lines(length, boundary).filter(|line: Seq<char>| names_content_length(line))
            == match length {
            Some(n) => seq![content_length_line(n)],
            None => Seq::<Seq<char>>::empty(),
        },
{
    let lines = header_lines(length, boundary);
    let pred = |line: Seq<char>| names_content_length(line);
    reveal_strlit("Content-Length:");
    reveal_strlit("Content-Length: ");
    reveal_strlit("Content-Type: multipart/form-data; boundary=");
    reveal_strlit("POST /api/v0/add HTTP/1.1");
    reveal_strlit("Host: localhost:5001");
    let mark = "Content-Length:"@;
    assert(!pred("POST /api/v0/add HTTP/1.1"@)) by {
        let line = "POST /api/v0/add HTTP/1.1"@;
        if mark.is_prefix_of(line) {
            assert(line.subrange(0, mark.len() as int)[0] == mark[0]);
        }
    }
    assert(!pred("Host: localhost:5001"@)) by {
        let line = "Host: localhost:5001"@;
        if mark.is_prefix_of(line) {
            assert(line.subrange(0, mark.len() as int)[0] == mark[0]);
        }
    }
    assert(!pred(content_type_line(boundary))) by {
        let line = content_type_line(boundary);
        if mark.is_prefix_of(line) {
            assert(line.subrange(0, mark.len() as int)[9] == mark[9]);
        }
    }
    reveal_with_fuel(Seq::filter, 5);
    match length {
        Some(n) => {
            let line = content_length_line(n);
            assert(pred(line)) by {
                assert(line.subrange(0, mark.len() as int) == mark);
            }
            assert(lines.drop_last().drop_last().drop_last().drop_last().len() == 0);
            assert(lines.filter(pred) == seq![line]);
        },
        None => {
            assert(lines.drop_last().drop_last().drop_last().len() == 0);
            assert(lines.filter(pred) == Seq::<Seq<char>>::empty());
        },
    }
}

/// The chunks one after another, as one sequence of bytes.
pub open spec fn concat(chunks: Seq<Seq<u8>>) -> Seq<u8>
    decreases chunks.len(),
{
    if chunks.len() == 0 {
        Seq::<u8>::empty()
    } else {
        concat(chunks.drop_last()) + chunks.last()
    }
}

/// The bytes of each chunk.
pub open spec fn chunk_views(chunks: Seq<Vec<u8>>) -> Seq<Seq<u8>> {
    Seq::new(chunks.len(), |i: int| chunks[i]@)
}

/// The multipart body of a payload: the opening chunk, the bytes of the
/// payload as they are, the closing chunk.
pub open spec fn body(length: Option<u64>, boundary: Seq<char>, payload: Seq<u8>) -> Seq<u8> {
    encode_utf8(preamble(length, boundary)) + payload + encode_utf8(terminator(boundary))
}

/// How far an encoder has come.
#[derive(Debug, Clone, Copy, PartialEq, Eq, Structural)]
pub enum Stage {
    /// Nothing was emitted yet.
    Start,
    /// The opening chunk was emitted: the payload passes through.
    Payload,
    /// The closing chunk was emitted.
    Finished,
}

/// What an encoder holds, and the payload that it has taken so far.
pub ghost struct EncoderView {
    pub length: Option<u64>,
    pub boundary: Seq<char>,
    pub stage: Stage,
    pub taken: Seq<u8>,
}

impl EncoderView {
    /// All that the encoder has emitted so far.
    pub open spec fn emitted(self) -> Seq<u8> {
        match self.stage {
            Stage::Start => Seq::<u8>::empty(),
            Stage::Payload => encode_utf8(preamble(self.length, self.boundary)) + self.taken,
            Stage::Finished => body(self.length, self.boundary, self.taken),
        }
    }
}

/// Wraps a payload that arrives in chunks into a multipart body, without
/// holding more than the chunk at hand: it emits the opening chunk, hands
/// each chunk of the payload on as it is, and emits the closing chunk.
pub struct MultipartEncoder {
    length: Option<u64>,
    boundary: String,
    stage: Stage,
    taken: Ghost<Seq<u8>>,
}

impl View for MultipartEncoder {
    type V = EncoderView;

    closed spec fn view(&self) -> EncoderView {
        EncoderView {
            length: self.length,
            boundary: self.boundary@,
            stage: self.stage,
            taken: self.taken@,
        }
    }
}

/// The bytes of a chunk that may be missing.
pub open spec fn chunk_view(chunk: Option<Vec<u8>>) -> Option<Seq<u8>> {
    match chunk {
        Some(bytes) => Some(bytes@),
        None => None,
    }
}

impl MultipartEncoder {
    #[verifier::type_invariant]
    spec fn starts_empty(self) -> bool {
        self.stage == Stage::Start ==> self.taken@.len() == 0
    }

    /// An encoder that has emitted nothing yet.
    pub fn new(length: Option<u64>, boundary: String) -> (r: Self)
        ensures
            r@ == (EncoderView {
                length,
                boundary: boundary@,
                stage: Stage::Start,
                taken: Seq::<u8>::empty(),
            }),
    {
        MultipartEncoder { length, boundary, stage: Stage::Start, taken: Ghost(Seq::<u8>::empty()) }
    }

    /// How far the encoder has come.
    pub fn stage(&self) -> (r: Stage)
        ensures
            r == self@.stage,
    {
        self.stage
    }

    /// The boundary of the body.
    pub fn boundary(&self) -> (r: &str)
        ensures
            r@ == self@.boundary,
    {
        self.boundary.as_str()
    }

    /// The opening chunk, from an encoder that has emitted nothing yet.
    /// Any other encoder gives nothing and stays as it is.
    pub fn begin(&mut self) -> (r: Option<Vec<u8>>)
        ensures
            old(self)@.stage == Stage::Start ==> chunk_view(r) == Some(
                encode_utf8(preamble(old(self)@.length, old(self)@.boundary)),
            ) && final(self)@ == (EncoderView { stage: Stage::Payload, ..old(self)@ }),
            old(self)@.stage != Stage::Start ==> r is None && final(self)@ == old(self)@,
            r matches Some(bytes) ==> final(self)@.emitted() == old(self)@.emitted() + bytes@,
    {
        match self.stage {
            Stage::Start => {
                let chunk = multipart_begin(self.length, self.boundary.as_str());
                proof {
                    use_type_invariant(&*self);
                    assert(self.taken@ =~= Seq::<u8>::empty());
                }
                self.stage = Stage::Payload;
                Some(chunk.as_str().as_bytes_vec())
            },
            _ => None,
        }
    }

    /// Hands a chunk of the payload on, unchanged, once the opening chunk
    /// is out and until the closing chunk is. Any other encoder gives
    /// nothing and stays as it is.
    pub fn pass(&mut self, chunk: Vec<u8>) -> (r: Option<Vec<u8>>)
        ensures
            old(self)@.stage == Stage::Payload ==> r == Some(chunk) && final(self)@ == (EncoderView {
                taken: old(self)@.taken + chunk@,
                ..old(self)@
            }),
            old(self)@.stage != Stage::Payload ==> r is None && final(self)@ == old(self)@,
            r matches Some(bytes) ==> final(self)@.emitted() == old(self)@.emitted() + bytes@,
    {
        match self.stage {
            Stage::Payload => {
                proof {
                    self.taken@ = self.taken@ + chunk@;
                }
                Some(chunk)
            },
            _ => None,
        }
    }

    /// The closing chunk, once the opening chunk is out. Any other encoder
    /// gives nothing and stays as it is.
    pub fn finish(&mut self) -> (r: Option<Vec<u8>>)
        ensures
            old(self)@.stage == Stage::Payload ==> chunk_view(r) == Some(
                encode_utf8(terminator(old(self)@.boundary)),
            ) && final(self)@ == (EncoderView { stage: Stage::Finished, ..old(self)@ }),
            old(self)@.stage != Stage::Payload ==> r is None && final(self)@ == old(self)@,
            r matches Some(bytes) ==> final(self)@.emitted() == old(self)@.emitted() + bytes@,
    {
        match self.stage {
            Stage::Payload => {
                let chunk = multipart_end(self.boundary.as_str());
                self.stage = Stage::Finished;
                Some(chunk.as_str().as_bytes_vec())
            },
            _ => None,
        }
    }
}

/// The multipart body of a payload that is given in chunks: what an
/// encoder emits for it, in one piece.
pub fn multipart_body(length: Option<u64>, boundary: &str, chunks: &Vec<Vec<u8>>) -> (r: Vec<u8>)
    ensures
        r@ == body(length, boundary@, concat(chunk_views(chunks@))),
{
    let mut encoder = MultipartEncoder::new(length, String::from_str(boundary));
    let mut out: Vec<u8> = Vec::new();
    if let Some(mut bytes) = encoder.begin() {
        out.append(&mut bytes);
    }
    let ghost views = chunk_views(chunks@);
    let mut i: usize = 0;
    while i < chunks.len()
        invariant
            i <= chunks.len(),
            views == chunk_views(chunks@),
            encoder@ == (EncoderView {
                length,
                boundary: boundary@,
                stage: Stage::Payload,
                taken: concat(views.take(i as int)),
            }),
            out@ == encoder@.emitted(),
        decreases chunks.len() - i,
    {
        proof {
            assert(views.take(i + 1).drop_last() == views.take(i as int));
            assert(views.take(i + 1).last() == chunks@[i as int]@);
        }
        if let Some(mut bytes) = encoder.pass(chunks[i].clone()) {
            out.append(&mut bytes);
        }
        i = i + 1;
    }
    assert(views.take(chunks.len() as int) == views);
    if let Some(mut bytes) = encoder.finish() {
        out.append(&mut bytes);
    }
    out
}

/// The body does not depend on where the payload is cut into chunks: two
/// payloads with the same bytes have the same body.
pub proof fn lemma_body_ignores_chunking(
    length: Option<u64>,
    boundary: Seq<char>,
    first: Seq<Seq<u8>>,
    second: Seq<Seq<u8>>,
)
    requires
        concat(first) == concat(second),
    ensures
        body(length, boundary, concat(first)) == body(length, boundary, concat(second)),
{
}

/// Cutting a payload in two and chunking each part gives the chunks of the
/// whole: the bytes of `first + second` are those of `first` followed by
/// those of `second`.
pub proof fn lemma_concat_add(first: Seq<Seq<u8>>, second: Seq<Seq<u8>>)
    ensures
        concat(first + second) == concat(first) + concat(second),
    decreases second.len(),
{
    if second.len() == 0 {
        assert(first + second == first);
    } else {
        lemma_concat_add(first, second.drop_last());
        assert((first + second).drop_last() == first + second.drop_last());
        assert((first + second).last() == second.last());
    }
}

} // verus!
