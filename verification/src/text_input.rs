//! The text-input component: the wire-level type attribute, class-name
//! resolution for this field, and the render model — the field's
//! identifier, its class lists, and the label blocks associated with it.
//!
//! The color and size classes of this field are applied one scheduling
//! tick after the rest (so they settle after the other class updates on
//! first mount); the render model keeps them in a list of their own,
//! `deferred_classes`, to make that visible.

use crate::ids::{dec_str, resolve_id};
use crate::{
    append_seg, flag_class_vec, flag_seg, opt_class_seg, opt_class_vec, push_class, views_of,
    Color, Size,
};
use vstd::prelude::*;

verus! {

/// The standard input semantics a field can take; each maps one-to-one to
/// its wire-level `type` attribute string. Leaving it unset keeps the
/// field a free-text input.
#[derive(Clone, Copy, Debug, PartialEq, Eq, Hash, Structural)]
pub enum TextInputType {
    Text,
    Number,
    Color,
    Date,
    DateTimeLocal,
    Email,
    Month,
    Password,
    Search,
    Tel,
    Time,
    Url,
    Week,
}

/// The wire-level attribute string of a [`TextInputType`].
pub open spec fn type_attr_str(t: TextInputType) -> Seq<char> {
    match t {
        TextInputType::Text => "text"@,
        TextInputType::Number => "number"@,
        TextInputType::Color => "color"@,
        TextInputType::Date => "date"@,
        TextInputType::DateTimeLocal => "datetime-local"@,
        TextInputType::Email => "email"@,
        TextInputType::Month => "month"@,
        TextInputType::Password => "password"@,
        TextInputType::Search => "search"@,
        TextInputType::Tel => "tel"@,
        TextInputType::Time => "time"@,
        TextInputType::Url => "url"@,
        TextInputType::Week => "week"@,
    }
}

impl TextInputType {
    /// Resolves this value to its one attribute string.
    pub fn into_type_str(self) -> (r: &'static str)
        ensures
            r@ == type_attr_str(self),
    {
        match self {
            TextInputType::Text => "text",
            TextInputType::Number => "number",
            TextInputType::Color => "color",
            TextInputType::Date => "date",
            TextInputType::DateTimeLocal => "datetime-local",
            TextInputType::Email => "email",
            TextInputType::Month => "month",
            TextInputType::Password => "password",
            TextInputType::Search => "search",
            TextInputType::Tel => "tel",
            TextInputType::Time => "time",
            TextInputType::Url => "url",
            TextInputType::Week => "week",
        }
    }
}

/// The class fragment of a [`Color`] on this field; empty means "no
/// class".
pub open spec fn input_color_class(c: Color) -> Seq<char> {
    match c {
        Color::Unset => ""@,
        Color::Primary => "input-primary"@,
        Color::Secondary => "input-secondary"@,
        Color::Accent => "input-accent"@,
        Color::Info => "input-info"@,
        Color::Success => "input-success"@,
        Color::Warning => "input-warning"@,
        Color::Error => "input-error"@,
    }
}

/// The class fragment of a [`Size`] on this field; empty means "no
/// class".
pub open spec fn input_size_class(s: Size) -> Seq<char> {
    match s {
        Size::Unset => ""@,
        Size::ExtraSmall => "input-xs"@,
        Size::Small => "input-sm"@,
        Size::Medium => "input-md"@,
        Size::Large => "input-lg"@,
    }
}

impl Color {
    /// Resolves this value to its one class fragment on this field.
    pub fn into_text_input_class(self) -> (r: &'static str)
        ensures
            r@ == input_color_class(self),
    {
        match self {
            Color::Unset => "",
            Color::Primary => "input-primary",
            Color::Secondary => "input-secondary",
            Color::Accent => "input-accent",
            Color::Info => "input-info",
            Color::Success => "input-success",
            Color::Warning => "input-warning",
            Color::Error => "input-error",
        }
    }
}

impl Size {
    /// Resolves this value to its one class fragment on this field.
    pub fn into_text_input_size(self) -> (r: &'static str)
        ensures
            r@ == input_size_class(self),
    {
        match self {
            Size::Unset => "",
            Size::ExtraSmall => "input-xs",
            Size::Small => "input-sm",
            Size::Medium => "input-md",
            Size::Large => "input-lg",
        }
    }
}

/// The character sequence of an optional string, for stating how optional
/// text travels into the render.
pub open spec fn str_opt_view(o: Option<String>) -> Option<Seq<char>> {
    match o {
        Some(s) => Some(s@),
        None => None,
    }
}

/// Everything a caller may configure on a text input. Each of the two
/// text-block pairs (label/label-alt, helper/helper-alt) renders only if
/// at least one of the pair is present. `value_as_date` binds the field's
/// date-valued property instead of its text: the date given here is what
/// the field shows once mounted, and on every later change of the bound
/// signal the embedding writes the signal's current date to the property
/// verbatim. Event notifications and focus driving are modeled separately
/// (see [`NotificationTargets`] and [`FocusDriver`]).
#[derive(Clone, Debug)]
pub struct TextInputProps {
    pub id: Option<String>,
    pub type_: Option<TextInputType>,
    pub name: Option<String>,
    pub label: Option<String>,
    pub label_alt: Option<String>,
    pub helper: Option<String>,
    pub helper_alt: Option<String>,
    pub placeholder: Option<String>,
    pub value: Option<String>,
    pub value_as_date: Option<DateStamp>,
    pub bordered: bool,
    pub ghost_style: bool,
    pub color: Option<Color>,
    pub size: Option<Size>,
}

impl Default for TextInputProps {
    /// A bare free-text field: nothing configured.
    fn default() -> (r: Self)
        ensures
            r.id is None,
            r.type_ is None,
            r.name is None,
            r.label is None,
            r.label_alt is None,
            r.helper is None,
            r.helper_alt is None,
            r.placeholder is None,
            r.value is None,
            r.value_as_date is None,
            !r.bordered,
            !r.ghost_style,
            r.color is None,
            r.size is None,
    {
        TextInputProps {
            id: None,
            type_: None,
            name: None,
            label: None,
            label_alt: None,
            helper: None,
            helper_alt: None,
            placeholder: None,
            value: None,
            value_as_date: None,
            bordered: false,
            ghost_style: false,
            color: None,
            size: None,
        }
    }
}

/// A rendered text block tied to the field: a `<label>` whose `for`
/// attribute names the field's identifier, wrapping the main text and the
/// alternate text, each optional but at least one present.
#[derive(Clone, Debug)]
pub struct LabelBlock {
    pub for_id: String,
    pub text: Option<String>,
    pub alt: Option<String>,
}

/// The markup-level outcome of rendering a text input. `date_value` is
/// the field's date-valued property as bound at mount; the embedding keeps
/// it equal to the bound signal afterwards.
#[derive(Clone, Debug)]
pub struct TextInputRender {
    pub id: String,
    pub name: Option<String>,
    pub type_attr: Option<&'static str>,
    pub classes: Vec<String>,
    pub deferred_classes: Vec<String>,
    pub label: Option<LabelBlock>,
    pub helper: Option<LabelBlock>,
    pub placeholder: Option<String>,
    pub value: String,
    pub date_value: Option<DateStamp>,
}

/// The classes the field bears as soon as it renders: the fixed base
/// classes, then one conditional class per flag.
pub open spec fn static_input_class_seq(bordered: bool, ghost_style: bool) -> Seq<Seq<char>> {
    seq!["input"@, "input-bordered"@, "w-full"@, "max-w-xs"@] + flag_seg(
        bordered,
        "input-bordered"@,
    ) + flag_seg(ghost_style, "input-ghost"@)
}

/// The class segment of an optional field color: nothing when absent or
/// resolved empty.
pub open spec fn input_color_seg(c: Option<Color>) -> Seq<Seq<char>> {
    match c {
        Some(cc) => opt_class_seg(input_color_class(cc)),
        None => Seq::empty(),
    }
}

/// The class segment of an optional field size: nothing when absent or
/// resolved empty.
pub open spec fn input_size_seg(s: Option<Size>) -> Seq<Seq<char>> {
    match s {
        Some(ss) => opt_class_seg(input_size_class(ss)),
        None => Seq::empty(),
    }
}

/// The classes applied one scheduling tick after mount: the resolved
/// color and size classes, each omitted when absent or resolved empty.
pub open spec fn deferred_input_class_seq(c: Option<Color>, s: Option<Size>) -> Seq<Seq<char>> {
    input_color_seg(c) + input_size_seg(s)
}

fn input_color_seg_vec(c: Option<Color>) -> (r: Vec<String>)
    ensures
        views_of(r@) == input_color_seg(c),
{
    match c {
        Some(cc) => opt_class_vec(cc.into_text_input_class()),
        None => {
            let v: Vec<String> = Vec::new();
            proof {
                assert(views_of(v@) =~= Seq::<Seq<char>>::empty());
            }
            v
        },
    }
}

fn input_size_seg_vec(s: Option<Size>) -> (r: Vec<String>)
    ensures
        views_of(r@) == input_size_seg(s),
{
    match s {
        Some(ss) => opt_class_vec(ss.into_text_input_size()),
        None => {
            let v: Vec<String> = Vec::new();
            proof {
                assert(views_of(v@) =~= Seq::<Seq<char>>::empty());
            }
            v
        },
    }
}

/// Renders a text input: resolves the field's identifier (drawing a fresh
/// one when the caller gave none), the `type` attribute, both class
/// lists, the label and helper blocks, the initial text value, and the
/// date bound to the field's date-valued property.
#[allow(non_snake_case)]
#[verifier::rlimit(50)]
pub fn TextInput(props: TextInputProps) -> (r: TextInputRender)
    ensures
        (props.id matches Some(s) ==> r.id@ == s@),
        (props.id is None ==> exists|n: nat| n <= usize::MAX && r.id@ == dec_str(n)),
        str_opt_view(r.name) == str_opt_view(props.name),
        (props.type_ matches Some(t) ==> r.type_attr matches Some(a) && a@ == type_attr_str(t)),
        (props.type_ is None ==> r.type_attr is None),
        views_of(r.classes@) == static_input_class_seq(props.bordered, props.ghost_style),
        views_of(r.deferred_classes@) == deferred_input_class_seq(props.color, props.size),
        (r.label is Some <==> (props.label is Some || props.label_alt is Some)),
        (r.label matches Some(lb) ==> lb.for_id@ == r.id@ && str_opt_view(lb.text) == str_opt_view(
            props.label,
        ) && str_opt_view(lb.alt) == str_opt_view(props.label_alt)),
        (r.helper is Some <==> (props.helper is Some || props.helper_alt is Some)),
        (r.helper matches Some(hb) ==> hb.for_id@ == r.id@ && str_opt_view(hb.text)
            == str_opt_view(props.helper) && str_opt_view(hb.alt) == str_opt_view(
            props.helper_alt,
        )),
        str_opt_view(r.placeholder) == str_opt_view(props.placeholder),
        r.value@ == (match props.value {
            Some(v) => v@,
            None => Seq::<char>::empty(),
        }),
        r.date_value == props.value_as_date,
{
    let fresh: usize = rand::random::<usize>();
    let id = resolve_id(props.id, fresh);

    let type_attr: Option<&'static str> = match props.type_ {
        Some(t) => Some(t.into_type_str()),
        None => None,
    };

    let mut classes: Vec<String> = Vec::new();
    push_class(&mut classes, "input");
    push_class(&mut classes, "input-bordered");
    push_class(&mut classes, "w-full");
    push_class(&mut classes, "max-w-xs");
    append_seg(&mut classes, flag_class_vec(props.bordered, "input-bordered"));
    append_seg(&mut classes, flag_class_vec(props.ghost_style, "input-ghost"));
    proof {
        assert(views_of(classes@) =~= static_input_class_seq(props.bordered, props.ghost_style));
    }

    let mut deferred_classes: Vec<String> = Vec::new();
    append_seg(&mut deferred_classes, input_color_seg_vec(props.color));
    append_seg(&mut deferred_classes, input_size_seg_vec(props.size));
    proof {
        assert(views_of(deferred_classes@) =~= deferred_input_class_seq(props.color, props.size));
    }

    let label = if props.label.is_some() || props.label_alt.is_some() {
        Some(LabelBlock { for_id: id.clone(), text: props.label, alt: props.label_alt })
    } else {
        None
    };
    let helper = if props.helper.is_some() || props.helper_alt.is_some() {
        Some(LabelBlock { for_id: id.clone(), text: props.helper, alt: props.helper_alt })
    } else {
        None
    };

    let value = match props.value {
        Some(v) => v,
        None => String::new(),
    };

    TextInputRender {
        id,
        name: props.name,
        type_attr,
        classes,
        deferred_classes,
        label,
        helper,
        placeholder: props.placeholder,
        value,
        date_value: props.value_as_date,
    }
}

/// Ground facts about every class fragment this field can bear: lengths,
/// and one distinguishing character for each pair of equal length.
proof fn input_pool_facts()
    ensures
        ""@.len() == 0,
        "input"@.len() == 5,
        "w-full"@.len() == 6,
        "max-w-xs"@.len() == 8 && "max-w-xs"@[0] == 'm',
        "input-lg"@.len() == 8 && "input-lg"@[0] == 'i' && "input-lg"@[6] == 'l',
        "input-md"@.len() == 8 && "input-md"@[0] == 'i' && "input-md"@[6] == 'm',
        "input-sm"@.len() == 8 && "input-sm"@[0] == 'i' && "input-sm"@[6] == 's',
        "input-xs"@.len() == 8 && "input-xs"@[0] == 'i' && "input-xs"@[6] == 'x',
        "input-info"@.len() == 10,
        "input-ghost"@.len() == 11 && "input-ghost"@[6] == 'g',
        "input-error"@.len() == 11 && "input-error"@[6] == 'e',
        "input-accent"@.len() == 12,
        "input-primary"@.len() == 13 && "input-primary"@[6] == 'p',
        "input-success"@.len() == 13 && "input-success"@[6] == 's',
        "input-warning"@.len() == 13 && "input-warning"@[6] == 'w',
        "input-bordered"@.len() == 14,
        "input-secondary"@.len() == 15,
{
    reveal_strlit("");
    reveal_strlit("input");
    reveal_strlit("w-full");
    reveal_strlit("max-w-xs");
    reveal_strlit("input-lg");
    reveal_strlit("input-md");
    reveal_strlit("input-sm");
    reveal_strlit("input-xs");
    reveal_strlit("input-info");
    reveal_strlit("input-ghost");
    reveal_strlit("input-error");
    reveal_strlit("input-accent");
    reveal_strlit("input-primary");
    reveal_strlit("input-success");
    reveal_strlit("input-warning");
    reveal_strlit("input-bordered");
    reveal_strlit("input-secondary");
}

/// Ground facts about every wire-level type attribute string: lengths,
/// and distinguishing characters within each length.
proof fn type_pool_facts()
    ensures
        "tel"@.len() == 3 && "tel"@[0] == 't',
        "url"@.len() == 3 && "url"@[0] == 'u',
        "text"@.len() == 4 && "text"@[0] == 't' && "text"@[1] == 'e',
        "date"@.len() == 4 && "date"@[0] == 'd',
        "time"@.len() == 4 && "time"@[0] == 't' && "time"@[1] == 'i',
        "week"@.len() == 4 && "week"@[0] == 'w',
        "color"@.len() == 5 && "color"@[0] == 'c',
        "email"@.len() == 5 && "email"@[0] == 'e',
        "month"@.len() == 5 && "month"@[0] == 'm',
        "number"@.len() == 6 && "number"@[0] == 'n',
        "search"@.len() == 6 && "search"@[0] == 's',
        "password"@.len() == 8,
        "datetime-local"@.len() == 14,
{
    reveal_strlit("tel");
    reveal_strlit("url");
    reveal_strlit("text");
    reveal_strlit("date");
    reveal_strlit("time");
    reveal_strlit("week");
    reveal_strlit("color");
    reveal_strlit("email");
    reveal_strlit("month");
    reveal_strlit("number");
    reveal_strlit("search");
    reveal_strlit("password");
    reveal_strlit("datetime-local");
}

/// Distinct colors resolve to distinct class fragments on this field.
pub proof fn lemma_input_color_class_injective(a: Color, b: Color)
    requires
        input_color_class(a) == input_color_class(b),
    ensures
        a == b,
{
    input_pool_facts();
}

/// Distinct sizes resolve to distinct class fragments on this field.
pub proof fn lemma_input_size_class_injective(a: Size, b: Size)
    requires
        input_size_class(a) == input_size_class(b),
    ensures
        a == b,
{
    input_pool_facts();
}

/// Distinct input types resolve to distinct attribute strings.
pub proof fn lemma_type_attr_str_injective(a: TextInputType, b: TextInputType)
    requires
        type_attr_str(a) == type_attr_str(b),
    ensures
        a == b,
{
    type_pool_facts();
}

/// The fixed base classes are always on the field; the ghost class
/// appears exactly when its flag is set; and the bordered flag only
/// re-asserts a class the base set already carries.
#[verifier::rlimit(50)]
pub proof fn lemma_input_static_classes(bordered: bool, ghost_style: bool)
    ensures
        static_input_class_seq(bordered, ghost_style).contains("input"@),
        static_input_class_seq(bordered, ghost_style).contains("input-bordered"@),
        static_input_class_seq(bordered, ghost_style).contains("w-full"@),
        static_input_class_seq(bordered, ghost_style).contains("max-w-xs"@),
        static_input_class_seq(bordered, ghost_style).contains("input-ghost"@) <==> ghost_style,
{
    broadcast use crate::lemma_add_contains, crate::lemma_singleton_contains;

    input_pool_facts();
    assert(seq!["input"@, "input-bordered"@, "w-full"@, "max-w-xs"@][0] == "input"@);
    assert(seq!["input"@, "input-bordered"@, "w-full"@, "max-w-xs"@][1] == "input-bordered"@);
    assert(seq!["input"@, "input-bordered"@, "w-full"@, "max-w-xs"@][2] == "w-full"@);
    assert(seq!["input"@, "input-bordered"@, "w-full"@, "max-w-xs"@][3] == "max-w-xs"@);
    if static_input_class_seq(bordered, ghost_style).contains("input-ghost"@) && !ghost_style {
        let base = seq!["input"@, "input-bordered"@, "w-full"@, "max-w-xs"@];
        let i = base.lemma_contains_to_index("input-ghost"@);
    }
}

/// Decomposition of the deferred class list: anything it contains comes
/// from the configured color or size.
pub proof fn lemma_input_deferred_members(c: Option<Color>, s: Option<Size>, x: Seq<char>)
    requires
        deferred_input_class_seq(c, s).contains(x),
    ensures
        (c matches Some(cc) && x == input_color_class(cc)) || (s matches Some(ss) && x
            == input_size_class(ss)),
{
    broadcast use crate::lemma_add_contains, crate::lemma_singleton_contains;

}

/// An absent color option contributes nothing: no (nonempty) color class
/// fragment appears in the deferred class list.
pub proof fn lemma_input_absent_color(c: Option<Color>, s: Option<Size>, cc: Color)
    requires
        c is None,
        input_color_class(cc).len() != 0,
    ensures
        !deferred_input_class_seq(c, s).contains(input_color_class(cc)),
{
    input_pool_facts();
    if deferred_input_class_seq(c, s).contains(input_color_class(cc)) {
        lemma_input_deferred_members(c, s, input_color_class(cc));
    }
}

/// An absent size option contributes nothing: no (nonempty) size class
/// fragment appears in the deferred class list.
pub proof fn lemma_input_absent_size(c: Option<Color>, s: Option<Size>, ss: Size)
    requires
        s is None,
        input_size_class(ss).len() != 0,
    ensures
        !deferred_input_class_seq(c, s).contains(input_size_class(ss)),
{
    input_pool_facts();
    if deferred_input_class_seq(c, s).contains(input_size_class(ss)) {
        lemma_input_deferred_members(c, s, input_size_class(ss));
    }
}

/// What a date-valued field reports, reduced to what this component reads
/// of it: the instant, in milliseconds. The embedding converts between
/// this and its own date representation; the component itself only passes
/// the value through or withholds it.
#[derive(Clone, Copy, Debug, PartialEq, Eq, Hash, Structural)]
pub struct DateStamp {
    pub millis: i64,
}

/// Which notifications the caller asked for: one flag per optional
/// callback.
#[derive(Clone, Copy, Debug, PartialEq, Eq, Structural)]
pub struct NotificationTargets {
    pub value: bool,
    pub number: bool,
    pub date: bool,
    pub focus_gained: bool,
    pub focus_lost: bool,
}

/// One user-driven event on the mounted field, as the embedding reports
/// it: an edit carrying the field's current text and the date the field
/// parsed from it (absent when the text is not a valid date), or a focus
/// change.
#[derive(Clone, Debug)]
pub enum FieldEvent {
    Edited { text: String, date: Option<DateStamp> },
    FocusGained,
    FocusLost,
}

/// The notifications one event produces. `value` and `date` carry their
/// payloads. `number` only says a numeric notification is due: its payload
/// is the field's native numeric coercion of the current text — possibly
/// "not a number" for non-numeric text — which the embedding forwards
/// untouched.
#[derive(Clone, Debug)]
pub struct Notifications {
    pub value: Option<String>,
    pub number: bool,
    pub date: Option<Option<DateStamp>>,
    pub focus_gained: bool,
    pub focus_lost: bool,
}

/// Turns one field event into the notifications owed for it. An edit
/// notifies the raw text, the numeric coercion, and the parsed date, each
/// only where asked for; the date notification is present exactly when
/// the field reported a valid date, and then matches it. Focus changes
/// notify their own targets and nothing else.
pub fn notifications_for(targets: &NotificationTargets, event: FieldEvent) -> (r: Notifications)
    ensures
        (event matches FieldEvent::Edited { text, date } ==> {
            &&& str_opt_view(r.value) == (if targets.value {
                Some(text@)
            } else {
                None::<Seq<char>>
            })
            &&& r.number == targets.number
            &&& r.date == (if targets.date {
                Some(date)
            } else {
                None::<Option<DateStamp>>
            })
            &&& !r.focus_gained
            &&& !r.focus_lost
        }),
        (event is FocusGained ==> r.value is None && !r.number && r.date is None && r.focus_gained
            == targets.focus_gained && !r.focus_lost),
        (event is FocusLost ==> r.value is None && !r.number && r.date is None && !r.focus_gained
            && r.focus_lost == targets.focus_lost),
{
    match event {
        FieldEvent::Edited { text, date } => Notifications {
            value: if targets.value {
                Some(text)
            } else {
                None
            },
            number: targets.number,
            date: if targets.date {
                Some(date)
            } else {
                None
            },
            focus_gained: false,
            focus_lost: false,
        },
        FieldEvent::FocusGained => Notifications {
            value: None,
            number: false,
            date: None,
            focus_gained: targets.focus_gained,
            focus_lost: false,
        },
        FieldEvent::FocusLost => Notifications {
            value: None,
            number: false,
            date: None,
            focus_gained: false,
            focus_lost: targets.focus_lost,
        },
    }
}

/// Drives the focus binding of a mounted field. The embedding re-runs the
/// binding once when it is installed and then on every change of the
/// focus signal; each run reports the signal's current value here and
/// performs the returned action.
#[derive(Clone, Copy, Debug, PartialEq, Eq, Structural)]
pub struct FocusDriver {
    pub ran_once: bool,
}

/// What one focus observation asks of the embedding: focus the field now,
/// and — only when a set signal is seen on the very first run, when the
/// field may not be attached yet — focus it again right after it is
/// mounted.
#[derive(Clone, Copy, Debug, PartialEq, Eq, Structural)]
pub struct FocusAction {
    pub focus_now: bool,
    pub focus_after_mount: bool,
}

/// The driver as installed, before any observation.
pub open spec fn fresh_focus_driver() -> FocusDriver {
    FocusDriver { ran_once: false }
}

/// One observation, at the specification level.
pub open spec fn spec_observe(d: FocusDriver, focus: bool) -> (FocusDriver, FocusAction) {
    (
        FocusDriver { ran_once: true },
        FocusAction { focus_now: focus, focus_after_mount: focus && !d.ran_once },
    )
}

impl FocusDriver {
    /// A driver for a freshly installed binding.
    pub fn new() -> (r: Self)
        ensures
            r == fresh_focus_driver(),
    {
        FocusDriver { ran_once: false }
    }

    /// One run of the binding: sees the signal's current value and asks
    /// for focus exactly when it is set.
    pub fn observe(&mut self, focus: bool) -> (a: FocusAction)
        ensures
            (*final(self), a) == spec_observe(*old(self), focus),
            a.focus_now == focus,
            a.focus_after_mount == (focus && !old(self).ran_once),
            final(self).ran_once,
    {
        let a = FocusAction { focus_now: focus, focus_after_mount: focus && !self.ran_once };
        self.ran_once = true;
        a
    }
}

/// The driver state after the first `i` values of a signal history have
/// been observed.
pub open spec fn driver_after(values: Seq<bool>, i: int) -> FocusDriver
    decreases i,
{
    if i <= 0 {
        fresh_focus_driver()
    } else {
        spec_observe(driver_after(values, i - 1), values[i - 1]).0
    }
}

/// The action produced for observation `i` of a signal history.
pub open spec fn focus_action_at(values: Seq<bool>, i: int) -> FocusAction {
    spec_observe(driver_after(values, i), values[i]).1
}

/// Focus fires exactly on the set observations: over any history of the
/// focus signal, observation `i` focuses the field exactly when the value
/// is set, and schedules the extra after-mount focus exactly when that
/// happens on the very first observation.
pub proof fn lemma_focus_fires_exactly_on_true(values: Seq<bool>, i: int)
    requires
        0 <= i < values.len(),
    ensures
        focus_action_at(values, i).focus_now == values[i],
        focus_action_at(values, i).focus_after_mount == (values[i] && i == 0),
{
    if i > 0 {
        assert(driver_after(values, i).ran_once);
    }
}

/// Observes a whole signal history from installation on, producing the
/// action of each observation.
pub fn observe_all(values: &Vec<bool>) -> (r: Vec<FocusAction>)
    ensures
        r@.len() == values@.len(),
        forall|i: int| 0 <= i < r@.len() ==> r@[i] == focus_action_at(values@, i),
{
    let mut driver = FocusDriver::new();
    let mut r: Vec<FocusAction> = Vec::new();
    let mut i: usize = 0;
    while i < values.len()
        invariant
            i <= values@.len(),
            r@.len() == i,
            driver == driver_after(values@, i as int),
            forall|j: int| 0 <= j < i ==> r@[j] == focus_action_at(values@, j),
        decreases values@.len() - i,
    {
        let a = driver.observe(values[i]);
        r.push(a);
        i += 1;
    }
    r
}

} // verus!
