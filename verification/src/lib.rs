//! Reusable user-interface building blocks: a button and a labeled text
//! input, both styled through a fixed vocabulary of CSS utility class
//! names.
//!
//! The components themselves are pure: each one maps its configuration
//! (enumerated style options and boolean flags) to the markup-level facts
//! an embedding needs — the exact class list, the attributes, and the
//! label association. The embedding (a reactive rendering runtime) owns
//! the DOM; this crate owns the rules that decide what the DOM must show.

pub mod button;
pub mod classes;
pub mod ids;
pub mod text_input;

pub use button::{Button, ButtonColor, ButtonKind, ButtonProps, ButtonRender, ButtonShape,
    ButtonWidth};
pub use classes::include_component_classes;
pub use text_input::{DateStamp, FieldEvent, FocusAction, FocusDriver, LabelBlock,
    NotificationTargets, Notifications, TextInput, TextInputProps, TextInputRender, TextInputType};

use vstd::prelude::*;

verus! {

/// Themed color options shared by every component. Each value selects one
/// fixed class-name fragment; `Unset` selects no class at all.
#[derive(Clone, Copy, Debug, PartialEq, Eq, Hash, Structural)]
pub enum Color {
    Unset,
    Primary,
    Secondary,
    Accent,
    Info,
    Success,
    Warning,
    Error,
}

impl Default for Color {
    fn default() -> (r: Self)
        ensures
            r == Color::Unset,
    {
        Color::Unset
    }
}

/// Sizing options shared by every component. As with [`Color`], `Unset`
/// selects no class.
#[derive(Clone, Copy, Debug, PartialEq, Eq, Hash, PartialOrd, Ord, Structural)]
pub enum Size {
    Unset,
    ExtraSmall,
    Small,
    Medium,
    Large,
}

impl Default for Size {
    fn default() -> (r: Self)
        ensures
            r == Size::Unset,
    {
        Size::Unset
    }
}

/// The character sequences of a sequence of strings; the shape in which
/// every class-list contract is stated.
pub open spec fn views_of(v: Seq<String>) -> Seq<Seq<char>> {
    Seq::new(v.len(), |i: int| v[i]@)
}

/// One conditional class: a singleton segment when the flag is set, else
/// nothing.
pub open spec fn flag_seg(flag: bool, class: Seq<char>) -> Seq<Seq<char>> {
    if flag {
        seq![class]
    } else {
        Seq::empty()
    }
}

/// One resolved style class: present unless the resolution came out empty
/// (the unset style values resolve to the empty string, meaning "no
/// class").
pub open spec fn opt_class_seg(class: Seq<char>) -> Seq<Seq<char>> {
    if class.len() == 0 {
        Seq::empty()
    } else {
        seq![class]
    }
}

/// Pushes one class name onto a class list.
fn push_class(v: &mut Vec<String>, s: &str)
    ensures
        views_of(final(v)@) == views_of(old(v)@).push(s@),
{
    let owned = String::from_str(s);
    v.push(owned);
    proof {
        assert(views_of(v@) =~= views_of(old(v)@).push(s@));
    }
}

/// Moves one class-list segment onto the end of a class list.
fn append_seg(v: &mut Vec<String>, seg: Vec<String>)
    ensures
        views_of(final(v)@) == views_of(old(v)@) + views_of(seg@),
{
    let mut moved = seg;
    let ghost seg0 = moved@;
    v.append(&mut moved);
    proof {
        assert(views_of(v@) =~= views_of(old(v)@) + views_of(seg0));
    }
}

/// Builds the segment of one boolean flag: the given class when the flag
/// is set, else nothing.
fn flag_class_vec(flag: bool, s: &str) -> (r: Vec<String>)
    ensures
        views_of(r@) == flag_seg(flag, s@),
{
    let mut v: Vec<String> = Vec::new();
    if flag {
        push_class(&mut v, s);
    }
    proof {
        assert(views_of(v@) =~= flag_seg(flag, s@));
    }
    v
}

/// Builds the segment of one resolved style class: the class when it is
/// nonempty, else nothing.
fn opt_class_vec(s: &str) -> (r: Vec<String>)
    ensures
        views_of(r@) == opt_class_seg(s@),
{
    let mut v: Vec<String> = Vec::new();
    if !s.is_empty() {
        push_class(&mut v, s);
    }
    proof {
        assert(views_of(v@) =~= opt_class_seg(s@));
    }
    v
}

/// A sequence contains an element exactly when one of its two halves does.
pub broadcast proof fn lemma_add_contains<A>(a: Seq<A>, b: Seq<A>, x: A)
    ensures
        #[trigger] (a + b).contains(x) <==> a.contains(x) || b.contains(x),
{
    if (a + b).contains(x) {
        let i = (a + b).lemma_contains_to_index(x);
        if i < a.len() {
            assert(a[i] == x);
        } else {
            assert(b[i - a.len()] == x);
        }
    }
    if a.contains(x) {
        let i = a.lemma_contains_to_index(x);
        assert((a + b)[i] == x);
    }
    if b.contains(x) {
        let i = b.lemma_contains_to_index(x);
        assert((a + b)[a.len() + i] == x);
    }
}

/// A singleton sequence contains exactly its one element.
pub broadcast proof fn lemma_singleton_contains<A>(c: A, x: A)
    ensures
        #[trigger] seq![c].contains(x) <==> x == c,
{
    if seq![c].contains(x) {
        let i = seq![c].lemma_contains_to_index(x);
        assert(seq![c][0] == c);
    }
    if x == c {
        assert(seq![c][0] == x);
    }
}

} // verus!
