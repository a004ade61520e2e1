//! What the terminal reports through its callbacks, kept until the embedder
//! reads it.
use vstd::prelude::*;

verus! {

/// The bytes as text: UTF-8 decoded, each ill-formed sequence replaced by
/// U+FFFD (the result of `String::from_utf8_lossy`).
pub uninterp spec fn lossy_utf8(bytes: Seq<u8>) -> Seq<char>;

/// `String::from_utf8_lossy(bytes).into_owned()`. Its result is named by
/// [`lossy_utf8`]; what it is stated to be is only that well-formed UTF-8
/// decodes unchanged. How ill-formed input is replaced is left unsaid.
#[verifier::external_body]
fn string_from_utf8_lossy(bytes: &[u8]) -> (text: String)
    ensures
        text@ == lossy_utf8(bytes@),
        vstd::utf8::valid_utf8(bytes@) ==> text@ == vstd::utf8::decode_utf8(bytes@),
{
    String::from_utf8_lossy(bytes).into_owned()
}

/// What the callbacks reported since the last read.
pub struct EventsView {
    /// The most recent title, if the application ever set one.
    pub title: Option<Seq<u8>>,
    /// Bells since the terminal was created.
    pub bells: nat,
    /// Whether the presentation moved since the damage was last cleared.
    pub damaged: bool,
    /// Hyperlinks the application asked to open, oldest first.
    pub open_uris: Seq<Seq<u8>>,
    /// OSC 52 selections `(0 primary | 1 clipboard, bytes)`, oldest first.
    pub clipboard: Seq<(i32, Seq<u8>)>,
    /// The grid size the application last asked for.
    pub resize_request: Option<(u16, u16)>,
}

/// The state of a fresh terminal: nothing reported yet.
pub open spec fn no_events() -> EventsView {
    EventsView {
        title: None,
        bells: 0,
        damaged: false,
        open_uris: Seq::empty(),
        clipboard: Seq::empty(),
        resize_request: None,
    }
}

/// A title arrived.
pub open spec fn after_title(v: EventsView, bytes: Seq<u8>) -> EventsView {
    EventsView { title: Some(bytes), ..v }
}

/// A bell rang.
pub open spec fn after_bell(v: EventsView) -> EventsView {
    EventsView { bells: v.bells + 1, ..v }
}

/// The presentation moved.
pub open spec fn after_damage(v: EventsView) -> EventsView {
    EventsView { damaged: true, ..v }
}

/// The damage was read off.
pub open spec fn after_clear_damage(v: EventsView) -> EventsView {
    EventsView { damaged: false, ..v }
}

/// The application asked to open a hyperlink.
pub open spec fn after_open_uri(v: EventsView, bytes: Seq<u8>) -> EventsView {
    EventsView { open_uris: v.open_uris.push(bytes), ..v }
}

/// The application set a selection.
pub open spec fn after_clipboard(v: EventsView, which: i32, bytes: Seq<u8>) -> EventsView {
    EventsView { clipboard: v.clipboard.push((which, bytes)), ..v }
}

/// The application asked for a grid size.
pub open spec fn after_resize_request(v: EventsView, columns: u16, rows: u16) -> EventsView {
    EventsView { resize_request: Some((columns, rows)), ..v }
}

/// The hyperlinks were handed out.
pub open spec fn after_take_open_uris(v: EventsView) -> EventsView {
    EventsView { open_uris: Seq::empty(), ..v }
}

/// The selections were handed out.
pub open spec fn after_take_clipboard(v: EventsView) -> EventsView {
    EventsView { clipboard: Seq::empty(), ..v }
}

/// The resize request was handed out.
pub open spec fn after_take_resize_request(v: EventsView) -> EventsView {
    EventsView { resize_request: None, ..v }
}

/// Each hyperlink's bytes.
pub open spec fn uri_bytes(uris: Seq<Vec<u8>>) -> Seq<Seq<u8>> {
    uris.map_values(|uri: Vec<u8>| uri@)
}

/// Each selection's target and bytes.
pub open spec fn selection_bytes(writes: Seq<(i32, Vec<u8>)>) -> Seq<(i32, Seq<u8>)> {
    writes.map_values(|w: (i32, Vec<u8>)| (w.0, w.1@))
}

/// What the terminal reported through its callbacks since the last read.
pub struct Events {
    title: Option<Vec<u8>>,
    bells: u64,
    damaged: bool,
    open_uri: Vec<Vec<u8>>,
    clipboard: Vec<(i32, Vec<u8>)>,
    resize_request: Option<(u16, u16)>,
}

impl View for Events {
    type V = EventsView;

    closed spec fn view(&self) -> EventsView {
        EventsView {
            title: match self.title {
                Some(bytes) => Some(bytes@),
                None => None,
            },
            bells: self.bells as nat,
            damaged: self.damaged,
            open_uris: uri_bytes(self.open_uri@),
            clipboard: selection_bytes(self.clipboard@),
            resize_request: self.resize_request,
        }
    }
}

impl Events {
    /// Nothing reported yet.
    pub fn new() -> (events: Events)
        ensures
            events@ == no_events(),
    {
        let events = Events {
            title: None,
            bells: 0,
            damaged: false,
            open_uri: Vec::new(),
            clipboard: Vec::new(),
            resize_request: None,
        };
        assert(uri_bytes(events.open_uri@) =~= Seq::<Seq<u8>>::empty());
        assert(selection_bytes(events.clipboard@) =~= Seq::<(i32, Seq<u8>)>::empty());
        events
    }

    /// The `title_changed` callback.
    pub fn title_changed(&mut self, bytes: Vec<u8>)
        ensures
            final(self)@ == after_title(old(self)@, bytes@),
    {
        self.title = Some(bytes);
    }

    /// The `bell` callback. The count is a `u64`, so it must not be full.
    pub fn bell(&mut self)
        requires
            old(self)@.bells < u64::MAX,
        ensures
            final(self)@ == after_bell(old(self)@),
    {
        self.bells = self.bells + 1;
    }

    /// The `damaged` callback.
    pub fn damage(&mut self)
        ensures
            final(self)@ == after_damage(old(self)@),
    {
        self.damaged = true;
    }

    /// The `open_uri` callback.
    pub fn open_uri(&mut self, bytes: Vec<u8>)
        ensures
            final(self)@ == after_open_uri(old(self)@, bytes@),
    {
        let ghost before = uri_bytes(self.open_uri@);
        let ghost added = bytes@;
        self.open_uri.push(bytes);
        assert(uri_bytes(self.open_uri@) =~= before.push(added));
    }

    /// The `clipboard_set` callback.
    pub fn clipboard_set(&mut self, which: i32, bytes: Vec<u8>)
        ensures
            final(self)@ == after_clipboard(old(self)@, which, bytes@),
    {
        let ghost before = selection_bytes(self.clipboard@);
        let ghost added = bytes@;
        self.clipboard.push((which, bytes));
        assert(selection_bytes(self.clipboard@) =~= before.push((which, added)));
    }

    /// The `resize_request` callback.
    pub fn resize_request(&mut self, columns: u16, rows: u16)
        ensures
            final(self)@ == after_resize_request(old(self)@, columns, rows),
    {
        self.resize_request = Some((columns, rows));
    }

    /// The most recent title the application set, or `None` while it has set
    /// none: the facade stays silent until the first one arrives.
    ///
    /// `Some("")` is therefore real activity rather than a starting state —
    /// a reset the application sends (RIS) publishes the cleared title.
    pub fn title(&self) -> (title: Option<String>)
        ensures
            title is Some <==> self@.title is Some,
            title matches Some(t) ==> t@ == lossy_utf8(self@.title->0),
            title matches Some(t) ==> (vstd::utf8::valid_utf8(self@.title->0) ==> t@
                == vstd::utf8::decode_utf8(self@.title->0)),
    {
        match &self.title {
            Some(bytes) => Some(string_from_utf8_lossy(bytes.as_slice())),
            None => None,
        }
    }

    /// Number of bells since the terminal was created.
    pub fn bells(&self) -> (bells: u64)
        ensures
            bells == self@.bells,
    {
        self.bells
    }

    /// Whether the presentation moved since [`Events::clear_damage`].
    pub fn damaged(&self) -> (damaged: bool)
        ensures
            damaged == self@.damaged,
    {
        self.damaged
    }

    pub fn clear_damage(&mut self)
        ensures
            final(self)@ == after_clear_damage(old(self)@),
    {
        self.damaged = false;
    }

    /// The grid size the application last asked for through XTWINOPS, if
    /// any, handed out once.
    pub fn take_resize_request(&mut self) -> (request: Option<(u16, u16)>)
        ensures
            request == old(self)@.resize_request,
            final(self)@ == after_take_resize_request(old(self)@),
    {
        self.resize_request.take()
    }

    /// OSC 52 selections the application set, oldest first, handed out once.
    pub fn take_clipboard_writes(&mut self) -> (writes: Vec<(i32, Vec<u8>)>)
        ensures
            selection_bytes(writes@) == old(self)@.clipboard,
            final(self)@ == after_take_clipboard(old(self)@),
    {
        let mut writes: Vec<(i32, Vec<u8>)> = Vec::new();
        std::mem::swap(&mut writes, &mut self.clipboard);
        assert(selection_bytes(self.clipboard@) =~= Seq::<(i32, Seq<u8>)>::empty());
        writes
    }

    /// Hyperlinks the application asked to open, oldest first, handed out
    /// once.
    pub fn take_open_uris(&mut self) -> (uris: Vec<Vec<u8>>)
        ensures
            uri_bytes(uris@) == old(self)@.open_uris,
            final(self)@ == after_take_open_uris(old(self)@),
    {
        let mut uris: Vec<Vec<u8>> = Vec::new();
        std::mem::swap(&mut uris, &mut self.open_uri);
        assert(uri_bytes(self.open_uri@) =~= Seq::<Seq<u8>>::empty());
        uris
    }
}

/// `n` bells in a row.
pub open spec fn after_bells(v: EventsView, n: nat) -> EventsView
    decreases n,
{
    if n == 0 {
        v
    } else {
        after_bell(after_bells(v, (n - 1) as nat))
    }
}

/// The bell count counts bells: `n` bells add `n` and touch nothing else.
pub proof fn lemma_bells_count(v: EventsView, n: nat)
    ensures
        after_bells(v, n) == (EventsView { bells: v.bells + n, ..v }),
    decreases n,
{
    if n > 0 {
        lemma_bells_count(v, (n - 1) as nat);
    }
}

/// The title is the most recent one set; a fresh terminal has none, and an
/// empty title set by the application is activity, not the starting state.
/// Nothing but a title changes the title.
pub proof fn lemma_title_is_the_latest(v: EventsView, a: Seq<u8>, b: Seq<u8>, which: i32, columns: u16, rows: u16)
    ensures
        after_title(after_title(v, a), b).title == Some(b),
        no_events().title is None,
        after_title(no_events(), Seq::<u8>::empty()).title == Some(Seq::<u8>::empty()),
        after_bell(v).title == v.title,
        after_damage(v).title == v.title,
        after_open_uri(v, a).title == v.title,
        after_clipboard(v, which, a).title == v.title,
        after_resize_request(v, columns, rows).title == v.title,
{
}

/// Reported hyperlinks and selections are handed out once each, oldest
/// first: what a hand-out returns is exactly what arrived since the previous
/// one, in order, and a second hand-out straight after returns nothing.
pub proof fn lemma_queues_hand_out_in_order(v: EventsView, a: Seq<u8>, b: Seq<u8>, i: i32, j: i32)
    ensures
        after_open_uri(after_open_uri(after_take_open_uris(v), a), b).open_uris == seq![a, b],
        after_take_open_uris(v).open_uris == Seq::<Seq<u8>>::empty(),
        after_clipboard(after_clipboard(after_take_clipboard(v), i, a), j, b).clipboard == seq![(i, a), (j, b)],
        after_take_clipboard(v).clipboard == Seq::<(i32, Seq<u8>)>::empty(),
        after_take_resize_request(v).resize_request is None,
{
    assert(Seq::<Seq<u8>>::empty().push(a).push(b) =~= seq![a, b]);
    assert(Seq::<(i32, Seq<u8>)>::empty().push((i, a)).push((j, b)) =~= seq![(i, a), (j, b)]);
}

/// Damage is whether the presentation moved since it was last cleared.
pub proof fn lemma_damage_since_clear(v: EventsView)
    ensures
        !after_clear_damage(v).damaged,
        after_damage(after_clear_damage(v)).damaged,
        !no_events().damaged,
{
}

} // verus!
