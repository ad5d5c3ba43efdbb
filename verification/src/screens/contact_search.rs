//! Search for other users by name, to add them as contacts.

use vstd::prelude::*;
use vstd::utf8::*;

use crate::draw::{
    add_item, bold, boxed, boxed_op, colored, drawn, frame, framed, items_shown, just_line, line,
    plain, put, span, span_of, styled, text, text_op, Area, Color, Draw, DrawView, Line, SpanView,
    Style,
};
use crate::layout::{inner_area, inside_border, is_split, split, Share};
use crate::text::{cat2, cat3, without_last};

verus! {

/// A user that was found.
#[derive(Debug)]
pub struct SearchResult {
    pub user_id: String,
    pub username: String,
    pub display_name: String,
}

/// The search.
#[derive(Debug)]
pub struct ContactSearchScreen {
    /// What is in the search box.
    pub query: String,
    /// What the last search found.
    pub results: Vec<SearchResult>,
    /// A note or an error.
    pub status: Option<String>,
    pub is_error: bool,
    /// Whether a search is under way.
    pub searching: bool,
    pub selected: Option<usize>,
    /// The row from which on the list was shown last.
    pub offset: usize,
}

/// The longest beginning of `t` of at most `n` bytes.
pub open spec fn fitting(t: Seq<char>, n: nat) -> Seq<char>
    decreases t.len(),
{
    if t.len() == 0 || encode_utf8(t).len() <= n {
        t
    } else {
        fitting(t.drop_last(), n)
    }
}

/// The longest beginning of `s` of at most `n` bytes.
fn fit(s: &str, n: usize) -> (r: String)
    ensures
        r@ == fitting(s@, n as nat),
{
    let mut r = s.to_string();
    while !r.as_str().is_empty() && r.as_str().as_bytes().len() > n
        invariant
            fitting(s@, n as nat) == fitting(r@, n as nat),
        decreases r@.len(),
    {
        let _ = r.pop();
    }
    r
}

/// The row of a user: the name and the beginning of the ID.
pub open spec fn result_line(r: SearchResult) -> Seq<SpanView> {
    seq![
        styled("  @"@ + r.username@, bold(Color::White)),
        styled("  "@ + fitting(r.user_id@, 8), colored(Color::DarkGray)),
    ]
}

/// The highlight of a selected row.
#[verifier::allow_in_spec]
pub fn row_highlight() -> Style
    returns
        (Style { fg: None, bg: Some(Color::DarkGray), bold: true, dim: false }),
{
    Style { fg: None, bg: Some(Color::DarkGray), bold: true, dim: false }
}

/// The row above the selected one, at least the first, which is selected too where none was.
pub open spec fn row_before(selected: Option<usize>) -> Option<usize> {
    match selected {
        Some(i) => Some(
            if i > 0 {
                (i - 1) as usize
            } else {
                0
            },
        ),
        None => Some(0usize),
    }
}

/// The hint above the search box.
pub const SEARCH_HINT: &'static str =
    "  Enter username  Enter=search  Tab=select  Ctrl+A=add  Esc=back";

/// What the search shows: a border and, in the four parts of what is inside it, the hint, the
/// search box, the status where there is one, and the users that were found.
pub open spec fn search_drawing(s: ContactSearchScreen, area: Area, parts: Seq<Area>) -> Seq<
    DrawView,
> {
    let head = seq![
        DrawView::Border { area, frame: framed(" ◆ Add Node "@, true, colored(Color::Cyan)) },
        text_op(
            parts[0],
            seq![seq![styled(SEARCH_HINT@, colored(Color::DarkGray))]],
            plain(),
        ),
        boxed_op(
            parts[1],
            framed(" Search "@, true, colored(Color::Cyan)),
            if s.searching {
                "  "@ + s.query@ + "  ⠋"@
            } else {
                "  "@ + s.query@ + "_"@
            },
            colored(Color::White),
        ),
    ];
    let status = match s.status {
        Some(msg) => seq![
            text_op(
                parts[2],
                seq![
                    seq![
                        styled(
                            "  "@ + msg@,
                            colored(
                                if s.is_error {
                                    Color::Red
                                } else {
                                    Color::Green
                                },
                            ),
                        ),
                    ],
                ],
                plain(),
            ),
        ],
        None => Seq::empty(),
    };
    head + status + seq![
        DrawView::List {
            area: parts[3],
            frame: None,
            items: s.results@.map_values(|r: SearchResult| seq![result_line(r)]),
            highlight: row_highlight(),
            symbol: "▶ "@,
            selected: s.selected,
            offset: s.offset,
        },
    ]
}

/// Whether a search shows what was found, with the first user selected, or that nothing was.
pub open spec fn shows_results(
    before: ContactSearchScreen,
    results: Vec<SearchResult>,
    after: ContactSearchScreen,
) -> bool {
    &&& after.results == results
    &&& after.query == before.query
    &&& !after.searching
    &&& if results@.len() == 0 {
        &&& after.selected is None
        &&& after.offset == 0
        &&& after.status is Some && after.status->0@ == "No results"@
        &&& !after.is_error
    } else {
        &&& after.selected == Some(0usize)
        &&& after.offset == before.offset
        &&& after.status is None
        &&& after.is_error == before.is_error
    }
}

/// The row of a user.
fn result_row(r: &SearchResult) -> (l: Line)
    ensures
        l@ == result_line(*r),
{
    let name = span_of(cat2("  @", r.username.as_str()), bold(Color::White));
    let id = span_of(
        cat2("  ", fit(r.user_id.as_str(), 8).as_str()),
        colored(Color::DarkGray),
    );
    let l = line(name).with(id);
    assert(l@ == result_line(*r));
    l
}

/// How the inside of the search is divided: the hint, the search box, the status and the users.
pub open spec fn search_shares() -> Seq<Share> {
    seq![Share::Length(1), Share::Length(3), Share::Length(1), Share::Min(1)]
}

impl ContactSearchScreen {
    /// An empty search.
    pub open spec fn is_new(self) -> bool {
        &&& self.query@ == ""@
        &&& self.results@.len() == 0
        &&& self.status is None
        &&& !self.is_error
        &&& !self.searching
        &&& self.selected is None
        &&& self.offset == 0
    }

    /// The selected user.
    pub open spec fn chosen(self) -> Option<SearchResult> {
        match self.selected {
            Some(i) => if i < self.results@.len() {
                Some(self.results@[i as int])
            } else {
                None
            },
            None => None,
        }
    }

    /// What is selected after going down: the next user, at most the last one, or the first where
    /// none was; nothing changes without users.
    pub open spec fn after_next(self) -> Option<usize> {
        if self.results@.len() == 0 {
            self.selected
        } else {
            match self.selected {
                Some(i) => Some(
                    if i + 1 < self.results@.len() {
                        (i + 1) as usize
                    } else {
                        (self.results@.len() - 1) as usize
                    },
                ),
                None => Some(0usize),
            }
        }
    }

    /// An empty search.
    pub fn new() -> (r: Self)
        ensures
            r.is_new(),
    {
        ContactSearchScreen {
            query: "".to_string(),
            results: Vec::new(),
            status: None,
            is_error: false,
            searching: false,
            selected: None,
            offset: 0,
        }
    }

    /// Adds a character to the search box.
    pub fn push_char(&mut self, c: char)
        ensures
            *final(self) == (ContactSearchScreen {
                query: final(self).query,
                status: None,
                ..*old(self)
            }),
            final(self).query@ == old(self).query@.push(c),
    {
        self.query.push(c);
        self.status = None;
    }

    /// Takes the last character in the search box away.
    pub fn pop_char(&mut self)
        ensures
            *final(self) == (ContactSearchScreen {
                query: final(self).query,
                status: None,
                ..*old(self)
            }),
            final(self).query@ == without_last(old(self).query@),
    {
        let _ = self.query.pop();
        self.status = None;
    }

    /// Selects the next user, at most the last one; if none was selected, the first.
    pub fn next(&mut self)
        ensures
            *final(self) == (ContactSearchScreen { selected: final(self).selected, ..*old(self) }),
            final(self).selected == old(self).after_next(),
    {
        let len: usize = self.results.len();
        if len == 0 {
            return;
        }
        let i: usize = match self.selected {
            Some(i) => if i < len - 1 {
                i + 1
            } else {
                len - 1
            },
            None => 0,
        };
        self.selected = Some(i);
    }

    /// Selects the user before, at least the first one.
    pub fn prev(&mut self)
        ensures
            *final(self) == (ContactSearchScreen { selected: final(self).selected, ..*old(self) }),
            final(self).selected == row_before(old(self).selected),
    {
        let i: usize = match self.selected {
            Some(i) => if i > 0 {
                i - 1
            } else {
                0
            },
            None => 0,
        };
        self.selected = Some(i);
    }

    /// Shows what a search found and selects the first user; where nothing was found, it says so.
    pub fn set_results(&mut self, results: Vec<SearchResult>)
        ensures
            shows_results(*old(self), results, *final(self)),
    {
        if results.len() == 0 {
            self.selected = None;
            self.offset = 0;
            self.status = Some("No results".to_string());
            self.is_error = false;
        } else {
            self.selected = Some(0);
            self.status = None;
        }
        self.results = results;
        self.searching = false;
    }

    /// Shows an error.
    pub fn set_error(&mut self, msg: String)
        ensures
            *final(self) == (ContactSearchScreen {
                status: Some(msg),
                is_error: true,
                searching: false,
                ..*old(self)
            }),
    {
        self.status = Some(msg);
        self.is_error = true;
        self.searching = false;
    }

    /// The selected user.
    pub fn selected(&self) -> (r: Option<&SearchResult>)
        ensures
            r == match self.chosen() {
                Some(c) => Some(&c),
                None => None,
            },
    {
        match self.selected {
            Some(i) => if i < self.results.len() {
                Some(&self.results[i])
            } else {
                None
            },
            None => None,
        }
    }

    /// Starts over.
    pub fn reset(&mut self)
        ensures
            final(self).is_new(),
    {
        *self = ContactSearchScreen::new();
    }

    /// Draws the search with the given parts of what is inside its border.
    pub fn draw(&self, area: Area, parts: &Vec<Area>) -> (r: Vec<Draw>)
        requires
            parts@.len() == 4,
        ensures
            drawn(r@) == search_drawing(*self, area, parts@),
    {
        let mut ops: Vec<Draw> = Vec::new();
        put(
            &mut ops,
            Draw::Border { area, frame: frame(" ◆ Add Node ", true, colored(Color::Cyan)) },
        );
        put(
            &mut ops,
            text(
                parts[0],
                just_line(line(span(SEARCH_HINT, colored(Color::DarkGray)))),
                plain(),
            ),
        );
        let input = if self.searching {
            cat3("  ", self.query.as_str(), "  ⠋")
        } else {
            cat3("  ", self.query.as_str(), "_")
        };
        put(
            &mut ops,
            boxed(
                parts[1],
                frame(" Search ", true, colored(Color::Cyan)),
                input,
                colored(Color::White),
            ),
        );
        if let Some(msg) = &self.status {
            let color = if self.is_error {
                Color::Red
            } else {
                Color::Green
            };
            let note = span_of(cat2("  ", msg.as_str()), colored(color));
            put(&mut ops, text(parts[2], just_line(line(note)), plain()));
        }
        let mut items: Vec<Vec<Line>> = Vec::new();
        let mut i: usize = 0;
        while i < self.results.len()
            invariant
                i <= self.results@.len(),
                items_shown(items@) == self.results@.take(i as int).map_values(
                    |r: SearchResult| seq![result_line(r)],
                ),
            decreases self.results@.len() - i,
        {
            add_item(&mut items, just_line(result_row(&self.results[i])));
            i = i + 1;
            assert(items_shown(items@) == self.results@.take(i as int).map_values(
                |r: SearchResult| seq![result_line(r)],
            ));
        }
        assert(self.results@.take(i as int) == self.results@);
        put(
            &mut ops,
            Draw::List {
                area: parts[3],
                frame: None,
                items,
                highlight: row_highlight(),
                symbol: "▶ ".to_string(),
                selected: self.selected,
                offset: self.offset,
            },
        );
        assert(drawn(ops@) == search_drawing(*self, area, parts@));
        ops
    }

    /// Draws the search. One row inside the border is asked for for the hint, three for the search
    /// box, one for the status and the rest for the users.
    pub fn render(&self, area: Area) -> (r: Vec<Draw>)
        ensures
            exists|parts: Seq<Area>|
                #[trigger] is_split(true, inner_area(area), search_shares(), parts) && drawn(r@)
                    == search_drawing(*self, area, parts),
    {
        let shares: Vec<Share> = vec![
            Share::Length(1),
            Share::Length(3),
            Share::Length(1),
            Share::Min(1),
        ];
        assert(shares@ == search_shares());
        let parts = split(true, inside_border(area), &shares);
        let r = self.draw(area, &parts);
        assert(is_split(true, inner_area(area), search_shares(), parts@));
        assert(drawn(r@) == search_drawing(*self, area, parts@));
        r
    }
}

} // verus!
