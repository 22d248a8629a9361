use vstd::prelude::*;

verus! {

/// What a save notice reports on.
#[derive(Clone, Copy, PartialEq, Eq, Debug, Structural)]
pub enum SaveNoticeKind {
    /// Saving a table as CSV.
    Csv,
    /// Saving the plot as an image.
    Plot,
}

/// Notices posted by save operations, waiting to be shown, oldest first.
pub struct SaveNotices {
    entries: Vec<(SaveNoticeKind, String)>,
}

impl View for SaveNotices {
    type V = Seq<(SaveNoticeKind, Seq<char>)>;

    closed spec fn view(&self) -> Self::V {
        self.entries@.map_values(|e: (SaveNoticeKind, String)| (e.0, e.1@))
    }
}

impl SaveNotices {
    /// No notices waiting.
    pub fn new() -> (notices: Self)
        ensures
            notices@ == Seq::<(SaveNoticeKind, Seq<char>)>::empty(),
    {
        let notices = SaveNotices { entries: Vec::new() };
        proof {
            assert(notices@ =~= Seq::<(SaveNoticeKind, Seq<char>)>::empty());
        }
        notices
    }

    /// The number of notices waiting.
    pub fn len(&self) -> (n: usize)
        ensures
            n == self@.len(),
    {
        self.entries.len()
    }
}

/// The characters of an optional message.
pub open spec fn message_view(m: Option<String>) -> Option<Seq<char>> {
    match m {
        Some(s) => Some(s@),
        None => None,
    }
}

/// The queue after posting a notice.
pub open spec fn posted(
    queue: Seq<(SaveNoticeKind, Seq<char>)>,
    kind: SaveNoticeKind,
    message: Seq<char>,
) -> Seq<(SaveNoticeKind, Seq<char>)> {
    queue.push((kind, message))
}

/// The message on display after draining the queue: the newest notice's, or
/// the one shown before when none waits.
pub open spec fn shown_after_drain(
    queue: Seq<(SaveNoticeKind, Seq<char>)>,
    shown: Option<Seq<char>>,
) -> Option<Seq<char>> {
    if queue.len() == 0 {
        shown
    } else {
        Some(queue.last().1)
    }
}

/// Posts a notice: it is appended after those already waiting.
pub fn push_save_notice(notices: &mut SaveNotices, kind: SaveNoticeKind, message: String)
    ensures
        final(notices)@ == posted(old(notices)@, kind, message@),
{
    let ghost before = notices.entries@;
    notices.entries.push((kind, message));
    proof {
        assert(notices.entries@ == before.push((kind, message)));
        assert(notices@ =~= old(notices)@.push((kind, message@)));
    }
}

/// Takes every waiting notice. Each one replaces the message on display in
/// turn, so the newest one is what shows afterwards; with none waiting the
/// message on display stays.
pub fn drain_save_notices(notices: &mut SaveNotices, shown: Option<String>) -> (now_shown: Option<
    String,
>)
    ensures
        final(notices)@ == Seq::<(SaveNoticeKind, Seq<char>)>::empty(),
        message_view(now_shown) == shown_after_drain(old(notices)@, message_view(shown)),
{
    let ghost before = notices@;
    let newest = notices.entries.pop();
    notices.entries.clear();
    proof {
        assert(notices@ =~= Seq::<(SaveNoticeKind, Seq<char>)>::empty());
    }
    match newest {
        Some(entry) => {
            proof {
                assert(before.last() == (entry.0, entry.1@));
            }
            Some(entry.1)
        },
        None => shown,
    }
}

/// A notice posted and then drained is the one on display, whatever was
/// waiting or shown before.
pub proof fn lemma_posted_notice_is_shown(
    queue: Seq<(SaveNoticeKind, Seq<char>)>,
    kind: SaveNoticeKind,
    message: Seq<char>,
    shown: Option<Seq<char>>,
)
    ensures
        shown_after_drain(posted(queue, kind, message), shown) == Some(message),
{
}

/// Draining an empty queue leaves the message on display as it was.
pub proof fn lemma_drain_empty_keeps_message(shown: Option<Seq<char>>)
    ensures
        shown_after_drain(Seq::empty(), shown) == shown,
{
}

} // verus!
