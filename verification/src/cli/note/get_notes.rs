//! `note`: all the notes of the user, one block each.
use vstd::prelude::*;
use vstd::string::*;

use crate::cli::api_url;
use crate::cli::clock::{TimePattern, civil_seconds, date_text, epoch_day, local_reading, valid_date, valid_reading, local_text_of_millis, millis_representable, representable_millis};
use crate::cli::command_exit::{error, text_of, CommandExit, ExitView};
use crate::cli::http_helper::{
    answer,
    fits,
    quiet,
    result_view,
    step_of,
    Action,
    Event,
    HttpHelper,
    HttpRequest,
    Method,
    Payload,
    Progress,
    ReadKind,
    Reply,
    Screen,
    StepView,
    Turn,
};
use crate::cli::paint::{paint, painted, Tint};
use crate::cli::text::concat;
use crate::cli::API_URL;

verus! {

/// A note, as the API gives it.
pub struct Note {
    /// Milliseconds since the epoch.
    pub created_at: i64,
    pub updated_at: u64,
    pub id: String,
    pub title: String,
    pub content: String,
    pub color_palette: u8,
    pub is_archived: Option<bool>,
    pub owner: String,
    pub project: Option<String>,
}

/// How the reply to `GET /notes/getall` is read: the notes on 200, nothing
/// otherwise.
pub open spec fn notes_read(status: u16) -> Option<ReadKind> {
    if status == 200 {
        Some(ReadKind::Notes)
    } else {
        None
    }
}

/// What `GET /notes/getall` gives: the notes on 200, "Failed to get your
/// notes" when they cannot be read, "Failed to get notes" for any other
/// status.
pub open spec fn notes_settle(status: u16, reply: Option<Reply>) -> Result<Vec<Note>, ExitView> {
    if status == 200 {
        match reply {
            Some(Reply::Notes(Some(notes))) => Ok(notes),
            _ => Err(ExitView::Error("Failed to get your notes"@)),
        }
    } else {
        Err(ExitView::Error("Failed to get notes"@))
    }
}

/// The move of the notes exchange after `event`.
pub open spec fn notes_answer(event: Event) -> StepView<Result<Vec<Note>, ExitView>> {
    answer(
        |s: u16| notes_read(s),
        |s: u16, r: Option<Reply>| notes_settle(s, r),
        |e: ExitView| Err::<Vec<Note>, ExitView>(e),
        event,
    )
}

/// `req` asks for all the notes.
pub open spec fn notes_request(req: HttpRequest) -> bool {
    &&& req.method == Method::Get
    &&& req.url@ == API_URL@ + "/notes/getall"@
    &&& req.query is None
    &&& req.payload is Empty
}

/// One move of the exchange that fetches the notes.
pub fn get_notes(event: Event) -> (res: Progress<Result<Vec<Note>, CommandExit>>)
    requires
        fits(|s: u16| notes_read(s), event),
    ensures
        event is Begin ==> (res matches Progress::Ongoing(Action::Send(req)) && notes_request(req)),
        !(event is Begin) ==> step_of(res, |r: Result<Vec<Note>, CommandExit>| result_view(r))
            == notes_answer(event),
{
    match event {
        Event::Sent(sent) => match HttpHelper::request(sent) {
            Screen::Refuse(e) => Progress::Settled(Err(e)),
            Screen::ReadThenRefuse => Progress::Ongoing(Action::Read(ReadKind::Text)),
            Screen::Pass(status) => if status == 200 {
                Progress::Ongoing(Action::Read(ReadKind::Notes))
            } else {
                Progress::Settled(Err(error("Failed to get notes")))
            },
        },
        Event::Replied(status, reply) => if status == 503 || status == 403 {
            Progress::Settled(Err(HttpHelper::refusal(status, &reply)))
        } else {
            match reply {
                Reply::Notes(Some(notes)) => Progress::Settled(Ok(notes)),
                _ => Progress::Settled(Err(error("Failed to get your notes"))),
            }
        },
        _ => Progress::Ongoing(
            Action::Send(
                HttpRequest {
                    method: Method::Get,
                    url: api_url("/notes/getall"),
                    query: None,
                    payload: Payload::Empty,
                },
            ),
        ),
    }
}

/// The rule drawn above each note.
pub open spec fn rule() -> Seq<char> {
    "-----------------------------------------------------\n"@
}

/// The block of a note, given how the rule and the labels were painted
/// and the local date of its creation.
pub open spec fn note_block(
    rule_painted: Seq<char>,
    title_label: Seq<char>,
    created_label: Seq<char>,
    note: Note,
    date: Seq<char>,
) -> Seq<char> {
    rule_painted + title_label + seq![':', ' '] + note.title@ + seq![',', ' '] + created_label
        + seq![':', ' '] + date + seq!['\n'] + note.content@ + seq!['\n']
}

/// `block` shows `note`: the rule in cyan, the title and the creation
/// date (how the local calendar reads the note's own creation stamp) with
/// yellow labels, then the content.
pub open spec fn block_shown(note: Note, block: Seq<char>) -> bool {
    exists|r: Seq<char>, t: Seq<char>, c: Seq<char>, date: Seq<char>|
        painted(rule(), Tint::Cyan, r) && painted("Title"@, Tint::Yellow, t) && painted(
            "Created at"@,
            Tint::Yellow,
            c,
        ) && local_reading(note.created_at as int / 1000, TimePattern::Date, date) && block
            == #[trigger] note_block(r, t, c, note, date)
}

/// `text` shows the notes, one block each, in order.
pub open spec fn notes_shown(notes: Seq<Note>, text: Seq<char>) -> bool {
    exists|blocks: Seq<Seq<char>>|
        blocks.len() == notes.len() && (forall|i: int|
            0 <= i < notes.len() ==> block_shown(#[trigger] notes[i], blocks[i])) && text == concat(
            blocks,
        )
}

/// `res` shows the notes, when every creation stamp lies in chrono's range.
pub open spec fn notes_turn(notes: Seq<Note>, res: Turn) -> bool {
    (forall|i: int| 0 <= i < notes.len() ==> representable_millis(#[trigger] notes[i].created_at as int))
        ==> (res.action matches Action::Finish(CommandExit::Normal(text)) && notes_shown(
        notes,
        text@,
    ))
}

/// Writes the block of one note.
fn note_text(note: &Note) -> (res: String)
    requires
        representable_millis(note.created_at as int),
    ensures
        block_shown(*note, res@),
{
    let r = paint("-----------------------------------------------------\n", Tint::Cyan);
    let t = paint("Title", Tint::Yellow);
    let c = paint("Created at", Tint::Yellow);
    let date = local_text_of_millis(note.created_at, TimePattern::Date);
    let mut out = String::new();
    out.append(r.as_str());
    out.append(t.as_str());
    out.append(": ");
    out.append(note.title.as_str());
    out.append(", ");
    out.append(c.as_str());
    out.append(": ");
    out.append(date.as_str());
    out.append("\n");
    out.append(note.content.as_str());
    out.append("\n");
    proof {
        reveal_strlit(": ");
        reveal_strlit(", ");
        reveal_strlit("\n");
        assert(out@ =~= note_block(r@, t@, c@, *note, date@));
    }
    out
}

/// Writes the notes, one block each; the program stops when a note's
/// creation stamp lies outside chrono's range.
pub fn render_notes(notes: &Vec<Note>) -> (res: Turn)
    ensures
        res.print@ == Seq::<char>::empty(),
        notes_turn(notes@, res),
        (exists|i: int| 0 <= i < notes.len() && !representable_millis(#[trigger] notes@[i].created_at as int))
            ==> res.action is Abort,
{
    let mut out = String::new();
    let ghost mut blocks: Seq<Seq<char>> = Seq::empty();
    let mut i: usize = 0;
    while i < notes.len()
        invariant
            i <= notes.len(),
            blocks.len() == i,
            forall|j: int| 0 <= j < i ==> block_shown(#[trigger] notes@[j], blocks[j]),
            forall|j: int| 0 <= j < i ==> representable_millis(#[trigger] notes@[j].created_at as int),
            out@ == concat(blocks),
        decreases notes.len() - i,
    {
        if !millis_representable(notes[i].created_at) {
            return quiet(Action::Abort(text_of("Invalid Date")));
        }
        let block = note_text(&notes[i]);
        out.append(block.as_str());
        proof {
            let old_blocks = blocks;
            blocks = blocks.push(block@);
            assert(blocks.drop_last() =~= old_blocks);
        }
        i = i + 1;
    }
    quiet(Action::Finish(CommandExit::Normal(out)))
}

/// `note`: fetches the notes and shows them, one block each.
pub fn run(event: Event) -> (res: Turn)
    requires
        fits(|s: u16| notes_read(s), event),
    ensures
        res.print@ == Seq::<char>::empty(),
        event is Begin ==> (res.action matches Action::Send(req) && notes_request(req)),
        !(event is Begin) ==> match notes_answer(event) {
            StepView::Read(kind) => res.action == Action::Read(kind),
            StepView::Settle(Err(e)) => (res.action matches Action::Finish(x) && x@ == e),
            StepView::Settle(Ok(notes)) => notes_turn(notes@, res),
            _ => false,
        },
{
    let p = get_notes(event);
    match p {
        Progress::Ongoing(action) => quiet(action),
        Progress::Settled(Ok(notes)) => {
            assert(notes_answer(event) == StepView::Settle(Ok::<Vec<Note>, ExitView>(notes)));
            render_notes(&notes)
        },
        Progress::Settled(Err(e)) => quiet(Action::Finish(e)),
    }
}

/// The `i`-th block shows the `i`-th note with a calendar date less than a
/// day away from that note's own creation stamp, written `YYYY-MM-DD`.
pub open spec fn dated_block(note: Note, block: Seq<char>) -> bool {
    exists|r: Seq<char>, t: Seq<char>, c: Seq<char>, y: int, m: int, d: int|
        #![trigger note_block(r, t, c, note, date_text(y, m, d)), epoch_day(y, m, d)]
        valid_date(y, m, d) && note.created_at as int / 1000 - 172800 < epoch_day(y, m, d) * 86400
            < note.created_at as int / 1000 + 86400 && block == note_block(
            r,
            t,
            c,
            note,
            date_text(y, m, d),
        )
}

/// Each note's block shows that note's own creation date: the date in the
/// `i`-th block is a calendar date less than a day (the local time zone's
/// offset) away from the `i`-th note's creation stamp, written
/// `YYYY-MM-DD`, and the blocks come in the order of the notes.
pub proof fn lemma_note_dates_are_their_own(notes: Seq<Note>, res: Turn)
    requires
        notes_turn(notes, res),
        forall|i: int| 0 <= i < notes.len() ==> representable_millis(#[trigger] notes[i].created_at as int),
    ensures
        res.action matches Action::Finish(CommandExit::Normal(text)) && exists|blocks: Seq<Seq<char>>|
            #![trigger concat(blocks)]
            blocks.len() == notes.len() && text@ == concat(blocks) && forall|i: int|
                0 <= i < notes.len() ==> dated_block(notes[i], #[trigger] blocks[i]),
{
    let text = res.action->Finish_0->Normal_0;
    let blocks = choose|blocks: Seq<Seq<char>>|
        blocks.len() == notes.len() && (forall|i: int|
            0 <= i < notes.len() ==> block_shown(#[trigger] notes[i], blocks[i])) && text@ == concat(
            blocks,
        );
    assert forall|i: int| 0 <= i < notes.len() implies dated_block(notes[i], #[trigger] blocks[i]) by {
        assert(block_shown(notes[i], blocks[i]));
        let (r, t, c, date) = choose|r: Seq<char>, t: Seq<char>, c: Seq<char>, date: Seq<char>|
            painted(rule(), Tint::Cyan, r) && painted("Title"@, Tint::Yellow, t) && painted(
                "Created at"@,
                Tint::Yellow,
                c,
            ) && local_reading(notes[i].created_at as int / 1000, TimePattern::Date, date)
                && blocks[i] == #[trigger] note_block(r, t, c, notes[i], date);
        let secs = notes[i].created_at as int / 1000;
        let (y, m, d, h, mi, s) = choose|y: int, m: int, d: int, h: int, mi: int, s: int|
            #![trigger civil_seconds(y, m, d, h, mi, s)]
            valid_reading(y, m, d, h, mi, s) && -86400 < civil_seconds(y, m, d, h, mi, s) - secs < 86400
                && date == date_text(y, m, d);
        assert(blocks[i] == note_block(r, t, c, notes[i], date_text(y, m, d)));
        assert(epoch_day(y, m, d) * 86400 == civil_seconds(y, m, d, h, mi, s) - (h * 3600 + mi * 60 + s));
    }
    assert(blocks.len() == notes.len() && text@ == concat(blocks));
}

} // verus!
