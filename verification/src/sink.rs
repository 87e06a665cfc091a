use vstd::prelude::*;
use vstd::utf8::valid_utf8;

verus! {

/// Which of the child's two output streams a log line came from.
#[derive(Clone, Copy, Debug, PartialEq, Eq, Structural)]
pub enum StreamOrigin {
    /// The child's standard output.
    Stdout,
    /// The child's standard error.
    Stderr,
}

impl StreamOrigin {
    /// The conventional name of the stream, used to tag log lines.
    pub fn tag(&self) -> (r: &'static str)
        ensures
            *self is Stdout ==> r@ == "stdout"@,
            *self is Stderr ==> r@ == "stderr"@,
    {
        match self {
            StreamOrigin::Stdout => "stdout",
            StreamOrigin::Stderr => "stderr",
        }
    }
}

/// Mathematical model of one sink entry: the origin tag, the bytes of the
/// line, and whether those bytes are valid UTF-8 text.
#[verifier::ext_equal]
pub ghost struct EntryModel {
    /// The stream the line came from.
    pub origin: StreamOrigin,
    /// The bytes of the line, without the trailing newline.
    pub line: Seq<u8>,
    /// Whether the bytes decode as UTF-8 text.
    pub text_ok: bool,
}

/// One line relayed to the log sink: the bytes of the line (without the
/// trailing newline) tagged by the stream they came from, and a flag saying
/// whether the bytes are valid UTF-8 text.  Malformed lines are kept
/// verbatim and flagged, never dropped.
pub struct LogEntry {
    /// The stream the line came from.
    pub origin: StreamOrigin,
    /// The bytes of the line, without the trailing newline.
    pub line: Vec<u8>,
    /// Whether the bytes decode as UTF-8 text.
    pub text_ok: bool,
}

impl View for LogEntry {
    type V = EntryModel;

    open spec fn view(&self) -> EntryModel {
        EntryModel { origin: self.origin, line: self.line@, text_ok: self.text_ok }
    }
}

/// The log sink: the ordered record of every line the supervisor has
/// relayed, across both streams, oldest first.
pub struct LogSink {
    /// The relayed lines, oldest first.
    pub entries: Vec<LogEntry>,
}

impl View for LogSink {
    type V = Seq<EntryModel>;

    open spec fn view(&self) -> Seq<EntryModel> {
        self.entries@.map_values(|e: LogEntry| e@)
    }
}

impl LogSink {
    /// An empty sink, holding no lines yet.
    pub fn new() -> (s: LogSink)
        ensures
            s@ == Seq::<EntryModel>::empty(),
    {
        let s = LogSink { entries: Vec::new() };
        proof {
            assert(s@ =~= Seq::<EntryModel>::empty());
        }
        s
    }

    /// How many lines the sink holds.
    pub fn len(&self) -> (n: usize)
        ensures
            n == self@.len(),
    {
        self.entries.len()
    }

    /// The line at position `i`, oldest first.
    pub fn entry(&self, i: usize) -> (e: &LogEntry)
        requires
            i < self@.len(),
        ensures
            e@ == self@[i as int],
    {
        &self.entries[i]
    }

    /// Append one relayed line at the end of the record.
    pub(crate) fn push(&mut self, e: LogEntry)
        ensures
            final(self)@ == old(self)@.push(e@),
    {
        let ghost m = e@;
        self.entries.push(e);
        proof {
            assert(final(self)@ =~= old(self)@.push(m));
        }
    }
}

/// The lines from one origin that the entries hold, in the order they were
/// relayed.
pub open spec fn lines_from(entries: Seq<EntryModel>, origin: StreamOrigin) -> Seq<Seq<u8>>
    decreases entries.len(),
{
    if entries.len() == 0 {
        seq![]
    } else if entries.last().origin == origin {
        lines_from(entries.drop_last(), origin).push(entries.last().line)
    } else {
        lines_from(entries.drop_last(), origin)
    }
}

/// The entries that relaying the given lines appends: each line tagged by
/// its origin, with its text flag.  An event is a pair of the origin and the
/// bytes of the line.
pub open spec fn entries_of(events: Seq<(StreamOrigin, Seq<u8>)>) -> Seq<EntryModel> {
    events.map_values(
        |ev: (StreamOrigin, Seq<u8>)|
            (EntryModel { origin: ev.0, line: ev.1, text_ok: valid_utf8(ev.1) }),
    )
}

/// The lines among the events that came from one origin, in the order they
/// were written.
pub open spec fn stream_lines(events: Seq<(StreamOrigin, Seq<u8>)>, origin: StreamOrigin) -> Seq<
    Seq<u8>,
>
    decreases events.len(),
{
    if events.len() == 0 {
        seq![]
    } else if events.last().0 == origin {
        stream_lines(events.drop_last(), origin).push(events.last().1)
    } else {
        stream_lines(events.drop_last(), origin)
    }
}

/// Appending one entry extends the record of its own origin by exactly that
/// line and leaves the record of the other origin unchanged.
pub proof fn lemma_lines_from_push(entries: Seq<EntryModel>, e: EntryModel, origin: StreamOrigin)
    ensures
        lines_from(entries.push(e), origin) == if e.origin == origin {
            lines_from(entries, origin).push(e.line)
        } else {
            lines_from(entries, origin)
        },
{
    assert(entries.push(e).drop_last() =~= entries);
    assert(entries.push(e).last() == e);
}

/// Law: a sink that starts empty and relays exactly the given events holds,
/// for each origin, exactly the lines written on that stream, each exactly
/// once and in the order they were written.  Lines of the other stream may
/// interleave in the sink but never reorder, drop or duplicate a stream's
/// own lines.
pub proof fn lemma_per_stream_order(events: Seq<(StreamOrigin, Seq<u8>)>, origin: StreamOrigin)
    ensures
        lines_from(entries_of(events), origin) == stream_lines(events, origin),
    decreases events.len(),
{
    if events.len() == 0 {
        assert(entries_of(events) =~= Seq::<EntryModel>::empty());
    } else {
        lemma_per_stream_order(events.drop_last(), origin);
        assert(entries_of(events).drop_last() =~= entries_of(events.drop_last()));
        assert(entries_of(events).last() == (EntryModel {
            origin: events.last().0,
            line: events.last().1,
            text_ok: valid_utf8(events.last().1),
        }));
    }
}

} // verus!
