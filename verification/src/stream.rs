//! The order in which a rendered page reaches the client.
//!
//! A page is streamed in chunks: first the head of the document, then the
//! fragments that the renderer produces, in the order in which it produces
//! them, then the tail. Producing a fragment is the caller's work; which
//! chunk goes out next is decided here, one step at a time.

use crate::config::LeptosOptions;
use crate::header_map::header_entries;
use crate::header_map::map_clone;
use crate::response::ResponseParts;
use crate::shell::full_path;
use crate::shell::html_shell_head;
use crate::shell::html_shell_tail;
use crate::shell::shell_head;
use crate::shell::ORIGIN;
use crate::shell::TAIL;
use crate::status::StatusCode;
use vstd::prelude::*;

verus! {

/// How many chunks are taken from the stream before the response is built.
/// The head and the first fragments are rendered by then, so that a status
/// or a header which they set still reaches the client.
pub const EAGER_CHUNKS: usize = 3;

/// How many fragments the renderer may be ahead of the client.
pub const FRAGMENT_QUEUE_DEPTH: usize = 8;

/// A page stream between two chunks.
#[derive(Debug)]
pub enum PageStream {
    /// Nothing was sent yet.
    Head { head: String, tail: String },
    /// The head was sent, and the renderer has not finished.
    Body { tail: String },
    /// The tail was sent.
    Done,
}

/// A page stream that waits for the renderer: the next chunk is its next
/// fragment, or the tail if it has finished.
#[derive(Debug)]
pub struct Awaiting {
    pub tail: String,
}

/// What is to be done for the next chunk.
#[derive(Debug)]
pub enum Step {
    /// Send this chunk; the stream goes on as given.
    Emit(String, PageStream),
    /// Ask the renderer for its next fragment and resume with the answer.
    Await(Awaiting),
    /// The stream has ended.
    Finish,
}

/// A page stream as mathematics.
pub enum StreamView {
    Head { head: Seq<char>, tail: Seq<char> },
    Body { tail: Seq<char> },
    Done,
}

/// A step as mathematics. `Await` holds the tail of the waiting stream.
pub enum StepView {
    Emit(Seq<char>, StreamView),
    Await(Seq<char>),
    Finish,
}

impl View for PageStream {
    type V = StreamView;

    open spec fn view(&self) -> StreamView {
        match self {
            PageStream::Head { head, tail } => StreamView::Head { head: head@, tail: tail@ },
            PageStream::Body { tail } => StreamView::Body { tail: tail@ },
            PageStream::Done => StreamView::Done,
        }
    }
}

impl View for Awaiting {
    type V = Seq<char>;

    open spec fn view(&self) -> Seq<char> {
        self.tail@
    }
}

impl View for Step {
    type V = StepView;

    open spec fn view(&self) -> StepView {
        match self {
            Step::Emit(chunk, next) => StepView::Emit(chunk@, next@),
            Step::Await(waiting) => StepView::Await(waiting@),
            Step::Finish => StepView::Finish,
        }
    }
}

/// The text of a fragment, if the renderer gave one.
pub open spec fn fragment_text(fragment: Option<String>) -> Option<Seq<char>> {
    match fragment {
        Some(text) => Some(text@),
        None => None,
    }
}

/// What a stream does when the client asks for the next chunk: before
/// anything was sent it sends the head, while the renderer is at work it
/// waits for it, and after the tail it ends.
pub open spec fn poll_of(stream: StreamView) -> StepView {
    match stream {
        StreamView::Head { head, tail } => StepView::Emit(head, StreamView::Body { tail }),
        StreamView::Body { tail } => StepView::Await(tail),
        StreamView::Done => StepView::Finish,
    }
}

/// What a waiting stream sends when the renderer has answered: the
/// fragment, if there is one, and otherwise the tail, after which nothing
/// follows.
pub open spec fn resume_of(tail: Seq<char>, fragment: Option<Seq<char>>) -> (Seq<char>, StreamView) {
    match fragment {
        Some(text) => (text, StreamView::Body { tail }),
        None => (tail, StreamView::Done),
    }
}

/// How far a stream is from its end.
pub open spec fn steps_left(stream: StreamView) -> nat {
    match stream {
        StreamView::Head { .. } => 2,
        StreamView::Body { .. } => 1,
        StreamView::Done => 0,
    }
}

/// All chunks that `stream` sends, step by step, when the renderer still
/// produces `fragments` and then finishes.
pub open spec fn run(stream: StreamView, fragments: Seq<Seq<char>>) -> Seq<Seq<char>>
    decreases fragments.len(), steps_left(stream),
{
    match poll_of(stream) {
        StepView::Emit(chunk, next) => seq![chunk] + run(next, fragments),
        StepView::Await(tail) => if fragments.len() > 0 {
            let (chunk, next) = resume_of(tail, Some(fragments[0]));
            seq![chunk] + run(next, fragments.drop_first())
        } else {
            let (chunk, next) = resume_of(tail, None);
            seq![chunk] + run(next, fragments)
        },
        StepView::Finish => Seq::empty(),
    }
}

/// What has happened after some chunks were taken from a stream: the
/// chunks, the stream as it then stands, and the fragments that the
/// renderer has yet to produce.
pub struct Pulled {
    pub chunks: Seq<Seq<char>>,
    pub stream: StreamView,
    pub fragments: Seq<Seq<char>>,
}

/// Takes up to `count` chunks from `stream`, fewer if it ends before.
pub open spec fn pull(stream: StreamView, fragments: Seq<Seq<char>>, count: nat) -> Pulled
    decreases count,
{
    if count == 0 {
        Pulled { chunks: Seq::empty(), stream, fragments }
    } else {
        match poll_of(stream) {
            StepView::Emit(chunk, next) => {
                let rest = pull(next, fragments, (count - 1) as nat);
                Pulled { chunks: seq![chunk] + rest.chunks, ..rest }
            },
            StepView::Await(tail) => if fragments.len() > 0 {
                let (chunk, next) = resume_of(tail, Some(fragments[0]));
                let rest = pull(next, fragments.drop_first(), (count - 1) as nat);
                Pulled { chunks: seq![chunk] + rest.chunks, ..rest }
            } else {
                let (chunk, next) = resume_of(tail, None);
                let rest = pull(next, fragments, (count - 1) as nat);
                Pulled { chunks: seq![chunk] + rest.chunks, ..rest }
            },
            StepView::Finish => Pulled { chunks: Seq::empty(), stream, fragments },
        }
    }
}

/// Once the head is out, a stream sends the fragments in the order in which
/// the renderer produces them, and then the tail.
pub proof fn lemma_body_in_order(tail: Seq<char>, fragments: Seq<Seq<char>>)
    ensures
        run(StreamView::Body { tail }, fragments) == fragments + seq![tail],
    decreases fragments.len(),
{
    let stream = StreamView::Body { tail };
    if fragments.len() > 0 {
        lemma_body_in_order(tail, fragments.drop_first());
        assert(run(stream, fragments) == seq![fragments[0]] + run(
            stream,
            fragments.drop_first(),
        ));
        assert(seq![fragments[0]] + (fragments.drop_first() + seq![tail]) =~= fragments + seq![
            tail,
        ]);
    } else {
        assert(run(StreamView::Done, fragments) == Seq::<Seq<char>>::empty());
        assert(run(stream, fragments) =~= fragments + seq![tail]);
    }
}

/// A page goes out as its head, then the fragments in the order in which
/// the renderer produces them, then its tail.
pub proof fn lemma_page_in_order(head: Seq<char>, tail: Seq<char>, fragments: Seq<Seq<char>>)
    ensures
        run(StreamView::Head { head, tail }, fragments) == seq![head] + fragments + seq![tail],
{
    lemma_body_in_order(tail, fragments);
    assert(seq![head] + (fragments + seq![tail]) =~= seq![head] + fragments + seq![tail]);
}

/// Taking chunks ahead of time changes nothing in what the client gets:
/// the chunks taken, followed by what the stream sends from where it then
/// stands, are what the stream would have sent untouched.
pub proof fn lemma_pull_then_run(stream: StreamView, fragments: Seq<Seq<char>>, count: nat)
    ensures
        pull(stream, fragments, count).chunks + run(
            pull(stream, fragments, count).stream,
            pull(stream, fragments, count).fragments,
        ) == run(stream, fragments),
    decreases count,
{
    let taken = pull(stream, fragments, count);
    if count == 0 {
        assert(taken.chunks + run(taken.stream, taken.fragments) =~= run(stream, fragments));
    } else {
        match poll_of(stream) {
            StepView::Emit(chunk, next) => {
                let rest = pull(next, fragments, (count - 1) as nat);
                lemma_pull_then_run(next, fragments, (count - 1) as nat);
                assert((seq![chunk] + rest.chunks) + run(rest.stream, rest.fragments) =~= seq![
                    chunk,
                ] + (rest.chunks + run(rest.stream, rest.fragments)));
            },
            StepView::Await(tail) => {
                if fragments.len() > 0 {
                    let (chunk, next) = resume_of(tail, Some(fragments[0]));
                    let rest = pull(next, fragments.drop_first(), (count - 1) as nat);
                    lemma_pull_then_run(next, fragments.drop_first(), (count - 1) as nat);
                    assert((seq![chunk] + rest.chunks) + run(rest.stream, rest.fragments)
                        =~= seq![chunk] + (rest.chunks + run(rest.stream, rest.fragments)));
                } else {
                    let (chunk, next) = resume_of(tail, None);
                    let rest = pull(next, fragments, (count - 1) as nat);
                    lemma_pull_then_run(next, fragments, (count - 1) as nat);
                    assert((seq![chunk] + rest.chunks) + run(rest.stream, rest.fragments)
                        =~= seq![chunk] + (rest.chunks + run(rest.stream, rest.fragments)));
                }
            },
            StepView::Finish => {
                assert(taken.chunks + run(taken.stream, taken.fragments) =~= run(
                    stream,
                    fragments,
                ));
            },
        }
    }
}

/// However many chunks are taken before the response is built, the client
/// gets the head, then the fragments in the order in which the renderer
/// produces them, then the tail: the chunks taken ahead come first, and
/// what follows them is the rest, with nothing moved.
pub proof fn lemma_streamed_page(
    head: Seq<char>,
    tail: Seq<char>,
    fragments: Seq<Seq<char>>,
    count: nat,
)
    ensures
        pull(StreamView::Head { head, tail }, fragments, count).chunks + run(
            pull(StreamView::Head { head, tail }, fragments, count).stream,
            pull(StreamView::Head { head, tail }, fragments, count).fragments,
        ) == seq![head] + fragments + seq![tail],
{
    lemma_page_in_order(head, tail, fragments);
    lemma_pull_then_run(StreamView::Head { head, tail }, fragments, count);
}

impl PageStream {
    /// The stream of a page with the given head and tail, before anything
    /// was sent.
    pub fn new(head: String, tail: String) -> (r: PageStream)
        ensures
            r@ == (StreamView::Head { head: head@, tail: tail@ }),
    {
        PageStream::Head { head, tail }
    }

    /// What is to be done when the client asks for the next chunk.
    pub fn poll(self) -> (r: Step)
        ensures
            r@ == poll_of(self@),
    {
        match self {
            PageStream::Head { head, tail } => Step::Emit(head, PageStream::Body { tail }),
            PageStream::Body { tail } => Step::Await(Awaiting { tail }),
            PageStream::Done => Step::Finish,
        }
    }
}

impl Awaiting {
    /// The chunk to send now that the renderer has answered, and the stream
    /// as it goes on. `None` says that the renderer has finished.
    pub fn resume(self, fragment: Option<String>) -> (r: (String, PageStream))
        ensures
            (r.0@, r.1@) == resume_of(self@, fragment_text(fragment)),
    {
        match fragment {
            Some(text) => (text, PageStream::Body { tail: self.tail }),
            None => (self.tail, PageStream::Done),
        }
    }
}

/// What is fixed of a streamed response before its body starts.
#[derive(Debug)]
pub struct ResponseHead {
    pub status: StatusCode,
    pub headers: http::HeaderMap<http::HeaderValue>,
}

/// The status of a streamed page: the one that a component set while the
/// first chunks were rendered, and 200 where none did.
pub open spec fn page_status(status: Option<int>) -> int {
    match status {
        Some(status) => status,
        None => 200,
    }
}

/// The status and headers of a streamed page, given what the components
/// left in the sink while the first chunks were rendered.
pub fn response_head(parts: &ResponseParts) -> (r: ResponseHead)
    ensures
        r.status@ == page_status(parts@.status),
        header_entries(r.headers) == parts@.headers,
{
    let status = match parts.status {
        Some(status) => status,
        None => StatusCode::ok(),
    };
    ResponseHead { status, headers: map_clone(&parts.headers) }
}

/// A status that a component set in the sink is the status of the page.
pub proof fn lemma_page_status_overridden(status: int)
    ensures
        page_status(Some(status)) == status,
{
}

/// What is settled about the rendering of one page before the renderer
/// starts: the address under which the page is routed, and the stream that
/// wraps what the renderer produces.
#[derive(Debug)]
pub struct RenderPlan {
    pub full_path: String,
    pub stream: PageStream,
}

/// Plans the streaming of the page at `path_and_query` for a site with the
/// given settings. `named_by_env` says whether the environment names the
/// output, `watched` whether the site is being watched.
pub fn render_app_to_stream(
    options: &LeptosOptions,
    path_and_query: &str,
    named_by_env: bool,
    watched: bool,
) -> (r: RenderPlan)
    ensures
        r.full_path@ == ORIGIN@ + path_and_query@,
        r.stream@ == (StreamView::Head {
            head: shell_head(*options, named_by_env, watched),
            tail: TAIL@,
        }),
{
    RenderPlan {
        full_path: full_path(path_and_query),
        stream: PageStream::new(html_shell_head(options, named_by_env, watched), html_shell_tail()),
    }
}

} // verus!
