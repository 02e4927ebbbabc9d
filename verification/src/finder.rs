//! What a candidate list shows: lines, colours, keys and previews.

use vstd::prelude::*;

use crate::error::Error;
use crate::git::{Place, WorkPath};
use crate::text::texts;

verus! {

/// Ends whatever colour a terminal is writing in.
pub const ANSI_RESET: &'static str = "\x1b[0m";

/// A colour that a part of a line can take.
#[derive(Debug, Clone, Copy, PartialEq, Eq, Structural)]
pub enum HighlightColor {
    Green,
    Yellow,
    Red,
    Blue,
    Cyan,
    /// Weaker than the text around it.
    Dim,
}

impl HighlightColor {
    /// The control sequence that starts the colour.
    pub open spec fn ansi(self) -> Seq<char> {
        match self {
            HighlightColor::Green => "\x1b[32m"@,
            HighlightColor::Yellow => "\x1b[33m"@,
            HighlightColor::Red => "\x1b[31m"@,
            HighlightColor::Blue => "\x1b[34m"@,
            HighlightColor::Cyan => "\x1b[36m"@,
            HighlightColor::Dim => "\x1b[2m"@,
        }
    }

    /// The control sequence that starts the colour.
    pub fn to_ansi(self) -> (start: &'static str)
        ensures
            start@ == self.ansi(),
    {
        match self {
            HighlightColor::Green => "\x1b[32m",
            HighlightColor::Yellow => "\x1b[33m",
            HighlightColor::Red => "\x1b[31m",
            HighlightColor::Blue => "\x1b[34m",
            HighlightColor::Cyan => "\x1b[36m",
            HighlightColor::Dim => "\x1b[2m",
        }
    }
}

/// A coloured part of a line: bytes `start` up to `end`.
#[derive(Debug, Clone, Copy, PartialEq, Eq, Structural)]
pub struct Highlight {
    pub start: usize,
    pub end: usize,
    pub color: HighlightColor,
}

impl Highlight {
    pub fn new(start: usize, end: usize, color: HighlightColor) -> (highlight: Self)
        ensures
            highlight == (Highlight { start, end, color }),
    {
        Highlight { start, end, color }
    }
}

/// What the preview of a candidate shows. Nothing runs before the candidate is looked at.
#[derive(Debug, PartialEq, Eq)]
pub enum PreviewSource {
    /// The output of a git command.
    Git(Vec<String>),
    /// The output of a git command in another directory.
    GitIn { directory: WorkPath, args: Vec<String> },
    /// The contents of a file.
    File(String),
    /// A text.
    Text(String),
    /// Several previews, each under a heading.
    Composite(Vec<(String, PreviewSource)>),
}

/// The contents of a [`PreviewSource`].
#[verifier::ext_equal]
pub enum Preview {
    Git(Seq<Seq<char>>),
    GitIn { directory: Place, args: Seq<Seq<char>> },
    File(Seq<char>),
    Text(Seq<char>),
    Composite(Seq<(Seq<char>, Preview)>),
}

impl PreviewSource {
    pub open spec fn preview(self) -> Preview
        decreases self,
    {
        match self {
            PreviewSource::Git(args) => Preview::Git(texts(args@)),
            PreviewSource::GitIn { directory, args } => Preview::GitIn {
                directory: directory@,
                args: texts(args@),
            },
            PreviewSource::File(path) => Preview::File(path@),
            PreviewSource::Text(text) => Preview::Text(text@),
            PreviewSource::Composite(sections) => Preview::Composite(
                Seq::new(
                    sections@.len(),
                    |i: int|
                        if 0 <= i < sections@.len() {
                            (sections@[i].0@, sections@[i].1.preview())
                        } else {
                            arbitrary()
                        },
                ),
            ),
        }
    }
}

impl View for PreviewSource {
    type V = Preview;

    open spec fn view(&self) -> Preview {
        self.preview()
    }
}

/// The headings and contents of several previews.
pub open spec fn sections_view(sections: Seq<(String, PreviewSource)>) -> Seq<(Seq<char>, Preview)> {
    sections.map_values(|section: (String, PreviewSource)| (section.0@, section.1@))
}

/// Adding a section adds its heading and its contents.
pub broadcast proof fn lemma_sections_push(
    sections: Seq<(String, PreviewSource)>,
    section: (String, PreviewSource),
)
    ensures
        #[trigger] sections_view(sections.push(section)) == sections_view(sections).push(
            (section.0@, section.1@),
        ),
{
    assert(sections_view(sections.push(section)) =~= sections_view(sections).push(
        (section.0@, section.1@),
    ));
}

/// A composite preview shows its sections in order.
pub broadcast proof fn lemma_composite_view(sections: Vec<(String, PreviewSource)>)
    ensures
        #[trigger] PreviewSource::Composite(sections)@ == Preview::Composite(
            sections_view(sections@),
        ),
{
    let shown = PreviewSource::Composite(sections)@;
    assert(shown->Composite_0 =~= sections_view(sections@));
}

/// The strip above a preview: a figure with its colours, and lines of context.
#[derive(Debug, PartialEq, Eq)]
pub struct PreviewPanel {
    pub metric: String,
    pub highlights: Vec<Highlight>,
    pub context: Vec<String>,
}

/// The contents of a [`PreviewPanel`].
#[verifier::ext_equal]
pub struct Panel {
    pub metric: Seq<char>,
    pub highlights: Seq<Highlight>,
    pub context: Seq<Seq<char>>,
}

impl View for PreviewPanel {
    type V = Panel;

    open spec fn view(&self) -> Panel {
        Panel {
            metric: self.metric@,
            highlights: self.highlights@,
            context: texts(self.context@),
        }
    }
}

impl PreviewPanel {
    /// A panel that shows nothing.
    pub fn new() -> (panel: Self)
        ensures
            panel@ == (Panel {
                metric: Seq::empty(),
                highlights: Seq::empty(),
                context: Seq::empty(),
            }),
    {
        let panel = PreviewPanel {
            metric: String::new(),
            highlights: Vec::new(),
            context: Vec::new(),
        };
        assert(texts(panel.context@) =~= Seq::empty());
        panel
    }

    pub fn with_metric(self, metric: String, highlights: Vec<Highlight>) -> (panel: Self)
        ensures
            panel@ == (Panel { metric: metric@, highlights: highlights@, ..self@ }),
    {
        PreviewPanel { metric, highlights, context: self.context }
    }

    pub fn with_context(self, context: Vec<String>) -> (panel: Self)
        ensures
            panel@ == (Panel { context: texts(context@), ..self@ }),
    {
        PreviewPanel { metric: self.metric, highlights: self.highlights, context }
    }
}

/// One candidate: the line that is shown and searched, the key that a selection gives
/// back, and what is shown beside the list.
#[derive(Debug, PartialEq, Eq)]
pub struct FinderItem {
    pub display: String,
    pub key: String,
    pub preview: PreviewSource,
    pub highlights: Vec<Highlight>,
    pub panel: Option<PreviewPanel>,
}

/// The contents of a [`FinderItem`].
#[verifier::ext_equal]
pub struct Candidate {
    pub display: Seq<char>,
    pub key: Seq<char>,
    pub preview: Preview,
    pub highlights: Seq<Highlight>,
    pub panel: Option<Panel>,
}

impl View for FinderItem {
    type V = Candidate;

    open spec fn view(&self) -> Candidate {
        Candidate {
            display: self.display@,
            key: self.key@,
            preview: self.preview@,
            highlights: self.highlights@,
            panel: match self.panel {
                Some(panel) => Some(panel@),
                None => None,
            },
        }
    }
}

/// A candidate without colours and without a panel.
pub open spec fn plain(display: Seq<char>, key: Seq<char>, preview: Preview) -> Candidate {
    Candidate { display, key, preview, highlights: Seq::empty(), panel: None }
}

/// The contents of several candidates.
pub open spec fn item_views(items: Seq<FinderItem>) -> Seq<Candidate> {
    items.map_values(|item: FinderItem| item@)
}

/// Adding a candidate adds its contents.
pub broadcast proof fn lemma_item_views_push(items: Seq<FinderItem>, item: FinderItem)
    ensures
        #[trigger] item_views(items.push(item)) == item_views(items).push(item@),
{
    assert(item_views(items.push(item)) =~= item_views(items).push(item@));
}

impl FinderItem {
    pub fn new(display: String, key: String, preview: PreviewSource) -> (item: Self)
        ensures
            item@ == plain(display@, key@, preview@),
    {
        FinderItem { display, key, preview, highlights: Vec::new(), panel: None }
    }

    pub fn with_highlights(self, highlights: Vec<Highlight>) -> (item: Self)
        ensures
            item@ == (Candidate { highlights: highlights@, ..self@ }),
    {
        FinderItem {
            display: self.display,
            key: self.key,
            preview: self.preview,
            highlights,
            panel: self.panel,
        }
    }

    pub fn with_panel(self, panel: PreviewPanel) -> (item: Self)
        ensures
            item@ == (Candidate { panel: Some(panel@), ..self@ }),
    {
        FinderItem {
            display: self.display,
            key: self.key,
            preview: self.preview,
            highlights: self.highlights,
            panel: Some(panel),
        }
    }

    /// The line that is shown.
    pub fn text(&self) -> (display: &str)
        ensures
            display@ == self.display@,
    {
        self.display.as_str()
    }

    /// The key that a selection of this candidate gives back.
    pub fn key(&self) -> (key: &str)
        ensures
            key@ == self.key@,
    {
        self.key.as_str()
    }

    /// What the preview shows.
    pub fn preview_source(&self) -> (preview: &PreviewSource)
        ensures
            *preview == self.preview,
    {
        &self.preview
    }
}

/// Builds the items of several candidates, each of them by `to_item`.
pub fn items_of<T, F: Fn(&T) -> FinderItem>(candidates: &[T], to_item: F) -> (items: Vec<
    FinderItem,
>)
    requires
        forall|i: int| 0 <= i < candidates@.len() ==> call_requires(to_item, (&candidates@[i],)),
    ensures
        items@.len() == candidates@.len(),
        forall|i: int|
            0 <= i < items@.len() ==> call_ensures(
                to_item,
                (&candidates@[i],),
                #[trigger] items@[i],
            ),
{
    let mut items: Vec<FinderItem> = Vec::new();
    let mut i: usize = 0;
    while i < candidates.len()
        invariant
            i <= candidates@.len(),
            items@.len() == i,
            forall|k: int|
                0 <= k < candidates@.len() ==> call_requires(to_item, (&candidates@[k],)),
            forall|k: int|
                0 <= k < i ==> call_ensures(to_item, (&candidates@[k],), #[trigger] items@[k]),
        decreases candidates@.len() - i,
    {
        items.push(to_item(&candidates[i]));
        i += 1;
    }
    items
}

/// Builds the items of several candidates, each of them by `to_item`. The first that cannot be
/// shown gives the error.
pub fn try_items_of<T, F: Fn(&T) -> Result<FinderItem, Error>>(candidates: &[T], to_item: F) -> (items:
    Result<Vec<FinderItem>, Error>)
    requires
        forall|i: int| 0 <= i < candidates@.len() ==> call_requires(to_item, (&candidates@[i],)),
    ensures
        match items {
            Ok(items) => {
                &&& items@.len() == candidates@.len()
                &&& forall|i: int|
                    0 <= i < items@.len() ==> call_ensures(
                        to_item,
                        (&candidates@[i],),
                        Ok(#[trigger] items@[i]),
                    )
            },
            Err(error) => exists|shown: Seq<FinderItem>| #[trigger]
                stops_at(candidates@, to_item, shown, error),
        },
{
    let mut items: Vec<FinderItem> = Vec::new();
    let mut i: usize = 0;
    while i < candidates.len()
        invariant
            i <= candidates@.len(),
            items@.len() == i,
            forall|k: int|
                0 <= k < candidates@.len() ==> call_requires(to_item, (&candidates@[k],)),
            forall|k: int|
                0 <= k < i ==> call_ensures(to_item, (&candidates@[k],), Ok(#[trigger] items@[k])),
        decreases candidates@.len() - i,
    {
        match to_item(&candidates[i]) {
            Ok(item) => items.push(item),
            Err(error) => {
                assert(stops_at(candidates@, to_item, items@, error));
                return Err(error);
            },
        }
        i += 1;
    }
    Ok(items)
}

/// Whether `to_item` shows the first candidates and gives an error for the next one.
pub open spec fn stops_at<T, F: Fn(&T) -> Result<FinderItem, Error>>(
    candidates: Seq<T>,
    to_item: F,
    shown: Seq<FinderItem>,
    error: Error,
) -> bool {
    &&& shown.len() < candidates.len()
    &&& forall|i: int|
        0 <= i < shown.len() ==> call_ensures(to_item, (&candidates[i],), Ok(#[trigger] shown[i]))
    &&& call_ensures(to_item, (&candidates[shown.len() as int],), Err(error))
}

/// How many candidates a list lets pick.
#[derive(Debug, Clone, Copy, PartialEq, Eq, Structural)]
pub enum SelectionMode {
    Single,
    Multi,
}

/// How a candidate list is shown.
#[derive(Debug, PartialEq, Eq)]
pub struct FinderOptions {
    pub mode: SelectionMode,
    pub header: Option<String>,
    /// The lines that are picked from the start.
    pub preselect: Vec<String>,
}

/// The contents of [`FinderOptions`].
#[verifier::ext_equal]
pub struct ListOptions {
    pub mode: SelectionMode,
    pub header: Option<Seq<char>>,
    pub preselect: Seq<Seq<char>>,
}

impl View for FinderOptions {
    type V = ListOptions;

    open spec fn view(&self) -> ListOptions {
        ListOptions {
            mode: self.mode,
            header: match self.header {
                Some(header) => Some(header@),
                None => None,
            },
            preselect: texts(self.preselect@),
        }
    }
}

/// Options with a header and nothing picked from the start.
pub open spec fn headed(mode: SelectionMode, header: Seq<char>) -> ListOptions {
    ListOptions { mode, header: Some(header), preselect: Seq::empty() }
}

impl FinderOptions {
    pub fn new(mode: SelectionMode) -> (options: Self)
        ensures
            options@ == (ListOptions { mode, header: None, preselect: Seq::empty() }),
    {
        let options = FinderOptions { mode, header: None, preselect: Vec::new() };
        assert(texts(options.preselect@) =~= Seq::empty());
        options
    }

    pub fn with_header(self, header: String) -> (options: Self)
        ensures
            options@ == (ListOptions { header: Some(header@), ..self@ }),
    {
        FinderOptions { mode: self.mode, header: Some(header), preselect: self.preselect }
    }

    pub fn with_preselect(self, preselect: Vec<String>) -> (options: Self)
        ensures
            options@ == (ListOptions { preselect: texts(preselect@), ..self@ }),
    {
        FinderOptions { mode: self.mode, header: self.header, preselect }
    }
}

/// A candidate list to show: the answer is the keys of the picked candidates.
#[derive(Debug, PartialEq, Eq)]
pub struct Picker {
    pub items: Vec<FinderItem>,
    pub options: FinderOptions,
}

/// How a candidate list was left.
#[derive(Debug, PartialEq, Eq)]
pub enum Answer {
    /// With the keys of the picked candidates.
    Picked(Vec<String>),
    /// Without an answer.
    Aborted,
}

impl Answer {
    /// The keys that were picked, where the list was not left without an answer.
    pub open spec fn keys_given(self) -> Option<Seq<Seq<char>>> {
        match self {
            Answer::Picked(keys) => Some(texts(keys@)),
            Answer::Aborted => None,
        }
    }

    /// The key that was picked, in a list that lets pick one.
    pub open spec fn key_given(self) -> Option<Seq<char>> {
        match self {
            Answer::Picked(keys) => if keys@.len() > 0 {
                Some(keys@.last()@)
            } else {
                None
            },
            Answer::Aborted => None,
        }
    }

    /// Gives the picked keys. Leaving the list without an answer cancels.
    pub fn keys(self) -> (keys: Result<Vec<String>, Error>)
        ensures
            match self.keys_given() {
                Some(given) => keys matches Ok(keys) && texts(keys@) == given,
                None => keys == Err::<Vec<String>, Error>(Error::Cancelled),
            },
    {
        match self {
            Answer::Picked(keys) => Ok(keys),
            Answer::Aborted => Err(Error::Cancelled),
        }
    }

    /// Gives the picked key. Leaving the list without an answer cancels.
    pub fn key(self) -> (key: Result<String, Error>)
        ensures
            match self.key_given() {
                Some(given) => key matches Ok(key) && key@ == given,
                None => key == Err::<String, Error>(Error::Cancelled),
            },
    {
        match self {
            Answer::Picked(keys) => {
                let mut keys = keys;
                match keys.pop() {
                    Some(key) => Ok(key),
                    None => Err(Error::Cancelled),
                }
            },
            Answer::Aborted => Err(Error::Cancelled),
        }
    }
}

/// Each colour has the code that terminals know it by, so no two are shown alike.
pub proof fn law_colors_have_their_codes(color: HighlightColor, start: &'static str)
    requires
        call_ensures(HighlightColor::to_ansi, (color,), start),
    ensures
        color == HighlightColor::Red ==> start@ == "\x1b[31m"@,
        color == HighlightColor::Green ==> start@ == "\x1b[32m"@,
        color == HighlightColor::Yellow ==> start@ == "\x1b[33m"@,
        color == HighlightColor::Blue ==> start@ == "\x1b[34m"@,
        color == HighlightColor::Cyan ==> start@ == "\x1b[36m"@,
        color == HighlightColor::Dim ==> start@ == "\x1b[2m"@,
{
}

/// Leaving a list without an answer cancels, and an answer gives back what was picked.
pub proof fn law_an_answer_is_what_was_picked(
    answer: Answer,
    keys: Result<Vec<String>, Error>,
    key: Result<String, Error>,
)
    requires
        call_ensures(Answer::keys, (answer,), keys),
        call_ensures(Answer::key, (answer,), key),
    ensures
        answer is Aborted ==> keys == Err::<Vec<String>, Error>(Error::Cancelled) && key == Err::<
            String,
            Error,
        >(Error::Cancelled),
        answer matches Answer::Picked(given) ==> {
            &&& keys matches Ok(keys)
            &&& texts(keys@) == texts(given@)
            &&& key matches Ok(key) ==> texts(given@).contains(key@)
            &&& key is Ok <==> given@.len() > 0
        },
{
    if let Answer::Picked(given) = answer {
        if let Ok(key) = key {
            assert(texts(given@)[given@.len() - 1] == key@);
        }
    }
}

/// What is added to a candidate, to the strip above a preview or to the options of a list changes
/// nothing else of it, and what is added later takes the place of what was there.
pub proof fn law_what_is_added_changes_nothing_else(
    item: FinderItem,
    highlights: Vec<Highlight>,
    highlighted: FinderItem,
    panel: PreviewPanel,
    headed_item: FinderItem,
    options: FinderOptions,
    header: String,
    with_header: FinderOptions,
    preselect: Vec<String>,
    with_preselect: FinderOptions,
)
    requires
        call_ensures(FinderItem::with_highlights, (item, highlights), highlighted),
        call_ensures(FinderItem::with_panel, (item, panel), headed_item),
        call_ensures(FinderOptions::with_header, (options, header), with_header),
        call_ensures(FinderOptions::with_preselect, (options, preselect), with_preselect),
    ensures
        highlighted@.highlights == highlights@,
        highlighted@.display == item@.display && highlighted@.key == item@.key,
        highlighted@.preview == item@.preview && highlighted@.panel == item@.panel,
        headed_item@.panel == Some(panel@),
        headed_item@.display == item@.display && headed_item@.key == item@.key,
        headed_item@.preview == item@.preview && headed_item@.highlights == item@.highlights,
        with_header@.header == Some(header@),
        with_header@.mode == options@.mode && with_header@.preselect == options@.preselect,
        with_preselect@.preselect == texts(preselect@),
        with_preselect@.mode == options@.mode && with_preselect@.header == options@.header,
{
}

/// A candidate is shown, found and previewed by what it was made of, and a new one has neither
/// colours nor a strip.
pub proof fn law_a_candidate_is_what_it_was_made_of(
    display: String,
    key: String,
    preview: PreviewSource,
    item: FinderItem,
    shown: &str,
    found: &str,
)
    requires
        call_ensures(FinderItem::new, (display, key, preview), item),
        call_ensures(FinderItem::text, (&item,), shown),
        call_ensures(FinderItem::key, (&item,), found),
    ensures
        shown@ == display@,
        found@ == key@,
        item@.preview == preview@,
        item@.highlights.len() == 0,
        item@.panel is None,
{
    assert(item@.display == item.display@);
    assert(item@.key == item.key@);
}

} // verus!
