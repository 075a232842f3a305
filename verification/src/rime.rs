//! RIME: the plain-value side of a librime session — key codes sent to
//! librime, what its answers mean for the frontend, and the snapshot of
//! what the session shows.
use vstd::prelude::*;
use crate::paths::{first_present, join_path, joined, pick_present};
use crate::schema_list::strings_view;
use crate::engine::{
    Candidate, CandidateView, candidates_view, copy_candidates, Key, KeyInput, ModifierKey, Modifiers,
    PageInfo, Preedit, Response, ResponseView,
};

verus! {

/// A deployed RIME schema.
#[derive(Debug, Clone, PartialEq, Eq)]
pub struct Schema {
    pub id: String,
    pub name: String,
}

/// How a RIME engine is set up (paths as text).
#[derive(Debug, Clone, PartialEq, Eq)]
pub struct Config {
    pub shared_data_dir: String,
    pub user_data_dir: String,
    /// Schema id to select; `None` keeps RIME's default (the first listed).
    pub schema: Option<String>,
    /// Used when generating the initial `default.custom.yaml`.
    pub page_size: usize,
}

/// Where librime's shared data is looked for, in order.
pub open spec fn shared_dir_candidates() -> Seq<Seq<char>> {
    seq!["/usr/share/rime-data"@, "/usr/local/share/rime-data"@]
}

/// The directories that may hold librime's shared data, in the order
/// they are tried.
pub fn shared_data_dirs() -> (d: Vec<String>)
    ensures
        strings_view(d@) == shared_dir_candidates(),
{
    proof {
        reveal_strlit("/usr/share/rime-data");
        reveal_strlit("/usr/local/share/rime-data");
    }
    let mut d: Vec<String> = Vec::new();
    d.push("/usr/share/rime-data".to_owned());
    d.push("/usr/local/share/rime-data".to_owned());
    assert(strings_view(d@) =~= shared_dir_candidates());
    d
}

impl Config {
    /// The default set-up: shared data in the first of
    /// [`shared_data_dirs`] that is a directory (`is_dir` holds one flag per
    /// entry), else in the first of them; user data in `cosmic-ext-ime/rime`
    /// under the data home; RIME's default schema; nine candidates a page.
    pub fn defaults(data_home: &String, is_dir: &Vec<bool>) -> (c: Config)
        ensures
            c.shared_data_dir@ == first_present(shared_dir_candidates(), is_dir@, "/usr/share/rime-data"@),
            c.user_data_dir@ == joined(joined(data_home@, "cosmic-ext-ime"@), "rime"@),
            c.schema is None,
            c.page_size == 9,
    {
        let dirs = shared_data_dirs();
        proof {
            reveal_strlit("/usr/share/rime-data");
        }
        let fallback = "/usr/share/rime-data".to_owned();
        let shared = pick_present(&dirs, is_dir, &fallback);
        let app = join_path(data_home, "cosmic-ext-ime");
        let user = join_path(&app, "rime");
        Config { shared_data_dir: shared, user_data_dir: user, schema: None, page_size: 9 }
    }
}

/// X11 modifier bits as in librime's key table.
pub open spec fn shift_mask() -> i32 {
    1
}

/// Control modifier bit.
pub open spec fn control_mask() -> i32 {
    4
}

/// Alt modifier bit.
pub open spec fn alt_mask() -> i32 {
    8
}

/// Super modifier bit.
pub open spec fn super_mask() -> i32 {
    64
}

/// Key-release bit.
pub open spec fn release_mask() -> i32 {
    0x4000_0000
}

/// The X11 keysym librime expects for a key; 0 for keys it cannot take.
pub open spec fn rime_keysym(key: Key) -> int {
    match key {
        Key::Char(c) => if (c as u32) < 0x80 {
            c as int
        } else {
            0x0100_0000 + c as int
        },
        Key::Backspace => 0xff08,
        Key::Tab => 0xff09,
        Key::Enter => 0xff0d,
        Key::Escape => 0xff1b,
        Key::Space => 0x20,
        Key::Left => 0xff51,
        Key::Up => 0xff52,
        Key::Right => 0xff53,
        Key::Down => 0xff54,
        Key::PageUp => 0xff55,
        Key::PageDown => 0xff56,
        Key::Modifier(m) => match m {
            ModifierKey::ShiftL => 0xffe1,
            ModifierKey::ShiftR => 0xffe2,
            ModifierKey::ControlL => 0xffe3,
            ModifierKey::ControlR => 0xffe4,
            ModifierKey::AltL => 0xffe9,
            ModifierKey::AltR => 0xffea,
            ModifierKey::SuperL => 0xffeb,
            ModifierKey::SuperR => 0xffec,
            ModifierKey::Other => 0,
        },
        Key::Other => 0,
    }
}

/// The modifier mask librime expects.
pub open spec fn rime_mask(input: KeyInput) -> int {
    (if input.modifiers.shift {
        1int
    } else {
        0
    }) + (if input.modifiers.ctrl {
        4int
    } else {
        0
    }) + (if input.modifiers.alt {
        8int
    } else {
        0
    }) + (if input.modifiers.logo {
        64int
    } else {
        0
    })
}

/// X11 keysym and modifier mask as librime expects them.
pub fn to_rime_key(input: &KeyInput) -> (r: (i32, i32))
    ensures
        r.0 == rime_keysym(input.key),
        r.1 == rime_mask(*input),
        input.key == Key::Up ==> r.0 == 0xff52,
        input.key == Key::Down ==> r.0 == 0xff54,
        input.key == Key::Left ==> r.0 == 0xff51,
        input.key == Key::Right ==> r.0 == 0xff53,
        input.key == Key::PageUp ==> r.0 == 0xff55,
        input.key == Key::PageDown ==> r.0 == 0xff56,
        input.key == Key::Escape ==> r.0 == 0xff1b,
        input.key == Key::Backspace ==> r.0 == 0xff08,
        input.key == Key::Enter ==> r.0 == 0xff0d,
        input.key == Key::Tab ==> r.0 == 0xff09,
        input.key == Key::Space ==> r.0 == 0x20,
{
    let sym: u32 = match input.key {
        Key::Char(c) => {
            let u = c as u32;
            if u < 0x80 {
                u
            } else {
                0x0100_0000 + u
            }
        },
        Key::Backspace => 0xff08,
        Key::Tab => 0xff09,
        Key::Enter => 0xff0d,
        Key::Escape => 0xff1b,
        Key::Space => 0x0020,
        Key::Left => 0xff51,
        Key::Up => 0xff52,
        Key::Right => 0xff53,
        Key::Down => 0xff54,
        Key::PageUp => 0xff55,
        Key::PageDown => 0xff56,
        Key::Modifier(m) => match m {
            ModifierKey::ShiftL => 0xffe1,
            ModifierKey::ShiftR => 0xffe2,
            ModifierKey::ControlL => 0xffe3,
            ModifierKey::ControlR => 0xffe4,
            ModifierKey::AltL => 0xffe9,
            ModifierKey::AltR => 0xffea,
            ModifierKey::SuperL => 0xffeb,
            ModifierKey::SuperR => 0xffec,
            ModifierKey::Other => 0,
        },
        Key::Other => 0,
    };
    let m = input.modifiers;
    let mut mask: i32 = 0;
    if m.shift {
        mask = mask + 1;
    }
    if m.ctrl {
        mask = mask + 4;
    }
    if m.alt {
        mask = mask + 8;
    }
    if m.logo {
        mask = mask + 64;
    }
    (sym as i32, mask)
}

/// The modifier mask of a key release: the press mask plus the release bit.
pub fn release_mask_for(mask: i32) -> (r: i32)
    requires
        0 <= mask < 0x4000_0000,
    ensures
        r == mask + release_mask(),
{
    mask + 0x4000_0000
}

/// What to do with a key for librime.
#[derive(Debug, Clone, Copy, PartialEq, Eq, Structural)]
pub enum KeyStep {
    /// The key has no keysym librime knows: answer `Ignored` without
    /// calling librime or reading its state again.
    Ignore,
    /// Hand librime this keysym and mask, read back its commit, refresh the
    /// snapshot, and answer with [`respond`].
    Send { keysym: i32, mask: i32 },
}

/// The step for a key press, or its release when `release` (the release
/// bit is added to the mask).
pub fn key_step(input: &KeyInput, release: bool) -> (st: KeyStep)
    ensures
        rime_keysym(input.key) == 0 ==> st == KeyStep::Ignore,
        rime_keysym(input.key) != 0 ==> (st matches KeyStep::Send { keysym, mask } && keysym
            == rime_keysym(input.key) && mask == rime_mask(*input) + (if release {
            release_mask() as int
        } else {
            0
        })),
{
    let (sym, mask) = to_rime_key(input);
    if sym == 0 {
        return KeyStep::Ignore;
    }
    let m = if release {
        release_mask_for(mask)
    } else {
        mask
    };
    KeyStep::Send { keysym: sym, mask: m }
}

/// A commit read back from librime, unless it is empty.
pub fn commit_text(text: String) -> (r: Option<String>)
    ensures
        r == (if text@.len() > 0 {
            Some(text)
        } else {
            None
        }),
{
    if text.as_str().is_empty() {
        None
    } else {
        Some(text)
    }
}

/// What librime's handling of a key means for the frontend: whether it took
/// the key, and text it committed meanwhile.
pub open spec fn key_response(handled: bool, commit: Option<Seq<char>>) -> ResponseView {
    match (handled, commit) {
        (true, Some(t)) => ResponseView::Commit(t),
        (true, None) => ResponseView::Consumed,
        (false, Some(t)) => ResponseView::CommitAndForward(t),
        (false, None) => ResponseView::Ignored,
    }
}

/// The response to a key librime was given.
pub fn respond(handled: bool, commit: Option<String>) -> (r: Response)
    ensures
        r@ == key_response(
            handled,
            match commit {
                Some(t) => Some(t@),
                None => None,
            },
        ),
{
    match (handled, commit) {
        (true, Some(text)) => Response::Commit(text),
        (true, None) => Response::Consumed,
        (false, Some(text)) => Response::CommitAndForward(text),
        (false, None) => Response::Ignored,
    }
}

/// What a librime session shows, read after every key.
pub struct Snapshot {
    pub preedit: Preedit,
    pub candidates: Vec<Candidate>,
    pub page: usize,
    pub has_next: bool,
    pub page_size: usize,
    pub selected: usize,
    pub composing: bool,
    pub schema_name: String,
}

/// `x` if not negative, else 0.
pub open spec fn non_negative(x: i32) -> nat {
    if x < 0 {
        0
    } else {
        x as nat
    }
}

/// A candidate from librime: its comment becomes the hint unless empty.
pub open spec fn rime_candidate(text: Seq<char>, comment: Seq<char>) -> CandidateView {
    CandidateView {
        text,
        hint: if comment.len() > 0 {
            Some(comment)
        } else {
            None
        },
    }
}

impl Snapshot {
    /// Nothing composed, no schema known.
    pub fn empty() -> (s: Snapshot)
        ensures
            s.preedit.text@.len() == 0,
            s.preedit.cursor == 0,
            s.candidates@.len() == 0,
            s.page == 0,
            !s.has_next,
            s.page_size == 0,
            s.selected == 0,
            !s.composing,
            s.schema_name@.len() == 0,
    {
        Snapshot {
            preedit: Preedit { text: String::new(), cursor: 0 },
            candidates: Vec::new(),
            page: 0,
            has_next: false,
            page_size: 0,
            selected: 0,
            composing: false,
            schema_name: String::new(),
        }
    }

    /// Build a snapshot from librime's status and context values. The cursor
    /// is clamped into the preedit, negative counts become 0, the page size
    /// is at least 1, and `has_next` holds when this is not the last page of
    /// a non-empty menu. `cands` pairs each candidate's text and comment.
    pub fn from_rime(
        schema_name: String,
        is_composing: bool,
        preedit: String,
        cursor_pos: i32,
        page_no: i32,
        is_last_page: bool,
        page_size: i32,
        highlighted: i32,
        cands: Vec<(String, String)>,
    ) -> (s: Snapshot)
        ensures
            s.schema_name == schema_name,
            s.composing == is_composing,
            s.preedit.text == preedit,
            s.preedit.cursor == (if non_negative(cursor_pos) <= (vstd::utf8::encode_utf8(preedit@).len() as usize) {
                non_negative(cursor_pos) as usize
            } else {
                vstd::utf8::encode_utf8(preedit@).len() as usize
            }),
            s.page == non_negative(page_no),
            s.has_next == (!is_last_page && cands.len() > 0),
            s.page_size == (if page_size < 1 {
                1
            } else {
                page_size
            }),
            s.selected == non_negative(highlighted),
            s.candidates@.len() == cands@.len(),
            forall|i: int|
                0 <= i < cands@.len() ==> #[trigger] s.candidates@[i]@ == rime_candidate(
                    cands@[i].0@,
                    cands@[i].1@,
                ),
    {
        let len = preedit.as_str().len();
        let c: usize = if cursor_pos < 0 {
            0
        } else {
            cursor_pos as usize
        };
        let cursor = if c <= len {
            c
        } else {
            len
        };
        let mut out: Vec<Candidate> = Vec::new();
        let mut i: usize = 0;
        while i < cands.len()
            invariant
                i <= cands.len(),
                out@.len() == i,
                forall|j: int|
                    0 <= j < i ==> #[trigger] out@[j]@ == rime_candidate(cands@[j].0@, cands@[j].1@),
            decreases cands.len() - i,
        {
            let text = cands[i].0.clone();
            let comment = cands[i].1.clone();
            let hint = if comment.as_str().is_empty() {
                None
            } else {
                Some(comment)
            };
            out.push(Candidate { text, hint });
            i = i + 1;
        }
        let has_next = !is_last_page && cands.len() > 0;
        Snapshot {
            preedit: Preedit { text: preedit, cursor },
            candidates: out,
            page: if page_no < 0 {
                0
            } else {
                page_no as usize
            },
            has_next,
            page_size: if page_size < 1 {
                1
            } else {
                page_size as usize
            },
            selected: if highlighted < 0 {
                0
            } else {
                highlighted as usize
            },
            composing: is_composing,
            schema_name,
        }
    }

    /// The schema's name, or "RIME" when librime gave none.
    pub fn name(&self) -> (n: &str)
        ensures
            self.schema_name@.len() > 0 ==> n@ == self.schema_name@,
            self.schema_name@.len() == 0 ==> n@ == seq!['R', 'I', 'M', 'E'],
    {
        if self.schema_name.as_str().is_empty() {
            let n = "RIME";
            proof {
                reveal_strlit("RIME");
            }
            n
        } else {
            self.schema_name.as_str()
        }
    }

    /// Paging as librime reports it: it does not tell the number of pages.
    pub fn page_info(&self) -> (i: PageInfo)
        ensures
            i == (PageInfo {
                page: self.page,
                total_pages: None,
                has_next: self.has_next,
                page_size: self.page_size,
            }),
    {
        PageInfo { page: self.page, total_pages: None, has_next: self.has_next, page_size: self.page_size }
    }

    /// The composition.
    pub fn preedit(&self) -> (p: Preedit)
        ensures
            p.text@ == self.preedit.text@,
            p.cursor == self.preedit.cursor,
    {
        Preedit { text: self.preedit.text.clone(), cursor: self.preedit.cursor }
    }

    /// The menu's candidates.
    pub fn candidates(&self) -> (c: Vec<Candidate>)
        ensures
            candidates_view(c@) == candidates_view(self.candidates@),
    {
        let c = copy_candidates(&self.candidates, 0, self.candidates.len());
        assert(self.candidates@.subrange(0, self.candidates@.len() as int) =~= self.candidates@);
        c
    }
}


/// The X11 keysyms librime is given: each named key's own keysym, an ASCII
/// character as itself, any other character as 0x0100_0000 plus its code
/// point, modifier keys as their keysyms, and 0 for keys with none. The
/// modifier mask has bit 0 for Shift, 2 for Control, 3 for Alt and 6 for
/// Super, whatever the key.
pub proof fn law_rime_keysyms(c: char, m: Modifiers, k: Key)
    ensures
        rime_keysym(Key::Up) == 0xff52,
        rime_keysym(Key::Down) == 0xff54,
        rime_keysym(Key::Left) == 0xff51,
        rime_keysym(Key::Right) == 0xff53,
        rime_keysym(Key::PageUp) == 0xff55,
        rime_keysym(Key::PageDown) == 0xff56,
        rime_keysym(Key::Escape) == 0xff1b,
        rime_keysym(Key::Backspace) == 0xff08,
        rime_keysym(Key::Enter) == 0xff0d,
        rime_keysym(Key::Tab) == 0xff09,
        rime_keysym(Key::Space) == 0x20,
        rime_keysym(Key::Other) == 0,
        rime_keysym(Key::Modifier(ModifierKey::ShiftL)) == 0xffe1,
        rime_keysym(Key::Modifier(ModifierKey::ShiftR)) == 0xffe2,
        rime_keysym(Key::Modifier(ModifierKey::ControlL)) == 0xffe3,
        rime_keysym(Key::Modifier(ModifierKey::ControlR)) == 0xffe4,
        rime_keysym(Key::Modifier(ModifierKey::AltL)) == 0xffe9,
        rime_keysym(Key::Modifier(ModifierKey::AltR)) == 0xffea,
        rime_keysym(Key::Modifier(ModifierKey::SuperL)) == 0xffeb,
        rime_keysym(Key::Modifier(ModifierKey::SuperR)) == 0xffec,
        rime_keysym(Key::Modifier(ModifierKey::Other)) == 0,
        (c as u32) < 0x80 ==> rime_keysym(Key::Char(c)) == c as int,
        (c as u32) >= 0x80 ==> rime_keysym(Key::Char(c)) == 0x0100_0000 + c as int,
        rime_keysym(k) != 0 ==> !(k is Other),
        rime_mask(KeyInput { key: k, modifiers: m }) % 2 == (if m.shift {
            1int
        } else {
            0
        }),
        rime_mask(KeyInput { key: k, modifiers: m }) / 4 % 2 == (if m.ctrl {
            1int
        } else {
            0
        }),
        rime_mask(KeyInput { key: k, modifiers: m }) / 8 % 2 == (if m.alt {
            1int
        } else {
            0
        }),
        rime_mask(KeyInput { key: k, modifiers: m }) / 64 == (if m.logo {
            1int
        } else {
            0
        }),
        rime_mask(KeyInput { key: k, modifiers: Modifiers { shift: false, ctrl: false, alt: false, logo: false } })
            == 0,
{
}

/// librime's answer to a key: handled with a commit commits, handled
/// without one consumes, unhandled with a commit commits and forwards the
/// key, unhandled without one forwards it.
pub proof fn law_rime_responses(t: Seq<char>)
    ensures
        key_response(true, Some(t)) == ResponseView::Commit(t),
        key_response(true, None) == ResponseView::Consumed,
        key_response(false, Some(t)) == ResponseView::CommitAndForward(t),
        key_response(false, None) == ResponseView::Ignored,
{
}

} // verus!
