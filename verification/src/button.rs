//! The button component: enumerated style options, their class-name
//! resolution, and the render model — which element is produced, which
//! classes it bears, and whether it carries the disabled attribute.

use crate::{
    append_seg, flag_class_vec, flag_seg, opt_class_seg, opt_class_vec, push_class, views_of,
    Color, Size,
};
use vstd::prelude::*;

verus! {

/// A button is either themed by a [`Color`] or carries the translucent
/// "glass" effect, which is a style of its own, not a color.
#[derive(Clone, Copy, Debug, Hash, PartialEq, Eq, Structural)]
pub enum ButtonColor {
    Color(Color),
    Glass,
}

impl Default for ButtonColor {
    fn default() -> (r: Self)
        ensures
            r == ButtonColor::Color(Color::Unset),
    {
        ButtonColor::Color(Color::Unset)
    }
}

impl vstd::std_specs::convert::FromSpecImpl<Color> for ButtonColor {
    open spec fn obeys_from_spec() -> bool {
        true
    }

    open spec fn from_spec(color: Color) -> Self {
        ButtonColor::Color(color)
    }
}

impl From<Color> for ButtonColor {
    fn from(color: Color) -> (r: Self)
        ensures
            r == ButtonColor::Color(color),
    {
        ButtonColor::Color(color)
    }
}

/// Optional width modifiers, independent of color and size.
#[derive(Clone, Copy, Debug, Hash, PartialEq, Eq, Structural)]
pub enum ButtonWidth {
    Unset,
    Wide,
    Block,
}

impl Default for ButtonWidth {
    fn default() -> (r: Self)
        ensures
            r == ButtonWidth::Unset,
    {
        ButtonWidth::Unset
    }
}

/// Optional shape modifiers, independent of color and size.
#[derive(Clone, Copy, Debug, Hash, PartialEq, Eq, Structural)]
pub enum ButtonShape {
    Unset,
    Square,
    Circle,
}

impl Default for ButtonShape {
    fn default() -> (r: Self)
        ensures
            r == ButtonShape::Unset,
    {
        ButtonShape::Unset
    }
}

/// What kind of element the button renders: a plain clickable trigger, or
/// a hyperlink carrying its target verbatim (no validation is done here).
#[derive(Clone, Debug, Hash, PartialEq, Eq)]
pub enum ButtonKind {
    Button,
    Link(String),
}

impl Default for ButtonKind {
    fn default() -> (r: Self)
        ensures
            r == ButtonKind::Button,
    {
        ButtonKind::Button
    }
}

/// The class fragment of a [`ButtonColor`]; empty means "no class".
pub open spec fn btn_color_class(c: ButtonColor) -> Seq<char> {
    match c {
        ButtonColor::Color(Color::Unset) => ""@,
        ButtonColor::Color(Color::Primary) => "btn-primary"@,
        ButtonColor::Color(Color::Secondary) => "btn-secondary"@,
        ButtonColor::Color(Color::Accent) => "btn-accent"@,
        ButtonColor::Color(Color::Info) => "btn-info"@,
        ButtonColor::Color(Color::Success) => "btn-success"@,
        ButtonColor::Color(Color::Warning) => "btn-warning"@,
        ButtonColor::Color(Color::Error) => "btn-error"@,
        ButtonColor::Glass => "glass"@,
    }
}

/// The class fragment of a [`ButtonWidth`]; empty means "no class".
pub open spec fn btn_width_class(w: ButtonWidth) -> Seq<char> {
    match w {
        ButtonWidth::Unset => ""@,
        ButtonWidth::Wide => "btn-wide"@,
        ButtonWidth::Block => "btn-block"@,
    }
}

/// The class fragment of a [`ButtonShape`]; empty means "no class".
pub open spec fn btn_shape_class(s: ButtonShape) -> Seq<char> {
    match s {
        ButtonShape::Unset => ""@,
        ButtonShape::Square => "btn-square"@,
        ButtonShape::Circle => "btn-circle"@,
    }
}

/// The class fragment of a [`Size`] on a button; empty means "no class".
pub open spec fn btn_size_class(s: Size) -> Seq<char> {
    match s {
        Size::Unset => ""@,
        Size::ExtraSmall => "btn-xs"@,
        Size::Small => "btn-sm"@,
        Size::Medium => "btn-md"@,
        Size::Large => "btn-lg"@,
    }
}

impl ButtonColor {
    /// Resolves this value to its one class fragment.
    pub fn into_btn_color_class(self) -> (r: &'static str)
        ensures
            r@ == btn_color_class(self),
    {
        match self {
            ButtonColor::Color(Color::Unset) => "",
            ButtonColor::Color(Color::Primary) => "btn-primary",
            ButtonColor::Color(Color::Secondary) => "btn-secondary",
            ButtonColor::Color(Color::Accent) => "btn-accent",
            ButtonColor::Color(Color::Info) => "btn-info",
            ButtonColor::Color(Color::Success) => "btn-success",
            ButtonColor::Color(Color::Warning) => "btn-warning",
            ButtonColor::Color(Color::Error) => "btn-error",
            ButtonColor::Glass => "glass",
        }
    }
}

impl ButtonWidth {
    /// Resolves this value to its one class fragment.
    pub fn into_btn_width_class(self) -> (r: &'static str)
        ensures
            r@ == btn_width_class(self),
    {
        match self {
            ButtonWidth::Unset => "",
            ButtonWidth::Wide => "btn-wide",
            ButtonWidth::Block => "btn-block",
        }
    }
}

impl ButtonShape {
    /// Resolves this value to its one class fragment.
    pub fn into_btn_shape_class(self) -> (r: &'static str)
        ensures
            r@ == btn_shape_class(self),
    {
        match self {
            ButtonShape::Unset => "",
            ButtonShape::Square => "btn-square",
            ButtonShape::Circle => "btn-circle",
        }
    }
}

impl Size {
    /// Resolves this value to its one class fragment on a button.
    pub fn into_btn_size_class(self) -> (r: &'static str)
        ensures
            r@ == btn_size_class(self),
    {
        match self {
            Size::Unset => "",
            Size::ExtraSmall => "btn-xs",
            Size::Small => "btn-sm",
            Size::Medium => "btn-md",
            Size::Large => "btn-lg",
        }
    }
}

/// The class segment of an optional button color: nothing when absent or
/// resolved empty.
pub open spec fn opt_color_seg(c: Option<ButtonColor>) -> Seq<Seq<char>> {
    match c {
        Some(cc) => opt_class_seg(btn_color_class(cc)),
        None => Seq::empty(),
    }
}

/// The class segment of an optional button size: nothing when absent or
/// resolved empty.
pub open spec fn opt_size_seg(s: Option<Size>) -> Seq<Seq<char>> {
    match s {
        Some(ss) => opt_class_seg(btn_size_class(ss)),
        None => Seq::empty(),
    }
}

/// The class segment of an optional button width: nothing when absent or
/// resolved empty.
pub open spec fn opt_width_seg(w: Option<ButtonWidth>) -> Seq<Seq<char>> {
    match w {
        Some(ww) => opt_class_seg(btn_width_class(ww)),
        None => Seq::empty(),
    }
}

/// The class segment of an optional button shape: nothing when absent or
/// resolved empty.
pub open spec fn opt_shape_seg(s: Option<ButtonShape>) -> Seq<Seq<char>> {
    match s {
        Some(ss) => opt_class_seg(btn_shape_class(ss)),
        None => Seq::empty(),
    }
}

fn color_seg_vec(c: Option<ButtonColor>) -> (r: Vec<String>)
    ensures
        views_of(r@) == opt_color_seg(c),
{
    match c {
        Some(cc) => opt_class_vec(cc.into_btn_color_class()),
        None => {
            let v: Vec<String> = Vec::new();
            proof {
                assert(views_of(v@) =~= Seq::<Seq<char>>::empty());
            }
            v
        },
    }
}

fn size_seg_vec(s: Option<Size>) -> (r: Vec<String>)
    ensures
        views_of(r@) == opt_size_seg(s),
{
    match s {
        Some(ss) => opt_class_vec(ss.into_btn_size_class()),
        None => {
            let v: Vec<String> = Vec::new();
            proof {
                assert(views_of(v@) =~= Seq::<Seq<char>>::empty());
            }
            v
        },
    }
}

fn width_seg_vec(w: Option<ButtonWidth>) -> (r: Vec<String>)
    ensures
        views_of(r@) == opt_width_seg(w),
{
    match w {
        Some(ww) => opt_class_vec(ww.into_btn_width_class()),
        None => {
            let v: Vec<String> = Vec::new();
            proof {
                assert(views_of(v@) =~= Seq::<Seq<char>>::empty());
            }
            v
        },
    }
}

fn shape_seg_vec(s: Option<ButtonShape>) -> (r: Vec<String>)
    ensures
        views_of(r@) == opt_shape_seg(s),
{
    match s {
        Some(ss) => opt_class_vec(ss.into_btn_shape_class()),
        None => {
            let v: Vec<String> = Vec::new();
            proof {
                assert(views_of(v@) =~= Seq::<Seq<char>>::empty());
            }
            v
        },
    }
}

/// Everything a caller may configure on a button. Every style option is
/// optional; the flags default to off. Click notification and nested
/// content are wiring between the embedding and the user, with no rule of
/// their own, so they are not part of the render model.
#[derive(Clone, Debug)]
pub struct ButtonProps {
    pub kind: ButtonKind,
    pub color: Option<ButtonColor>,
    pub size: Option<Size>,
    pub outlined: bool,
    pub ghost_style: bool,
    pub active: bool,
    pub disabled: bool,
    pub loading: bool,
    pub no_animation: bool,
    pub width: Option<ButtonWidth>,
    pub shape: Option<ButtonShape>,
}

impl Default for ButtonProps {
    /// A plain button: no style options, every flag off.
    fn default() -> (r: Self)
        ensures
            r.kind == ButtonKind::Button,
            r.color is None,
            r.size is None,
            r.width is None,
            r.shape is None,
            !r.outlined,
            !r.ghost_style,
            !r.active,
            !r.disabled,
            !r.loading,
            !r.no_animation,
    {
        ButtonProps {
            kind: ButtonKind::Button,
            color: None,
            size: None,
            outlined: false,
            ghost_style: false,
            active: false,
            disabled: false,
            loading: false,
            no_animation: false,
            width: None,
            shape: None,
        }
    }
}

/// The markup-level outcome of rendering a button: the element kind, its
/// full class list in emission order, and its disabled attribute.
#[derive(Clone, Debug)]
pub struct ButtonRender {
    pub is_link: bool,
    pub href: Option<String>,
    pub classes: Vec<String>,
    pub disabled_attr: bool,
}

/// The full class list a button with the given configuration must bear:
/// the base class, then one conditional class per flag, then the resolved
/// style classes for the dynamically bound options (color, size, width,
/// shape), each omitted when absent or resolved to the empty fragment.
pub open spec fn button_class_seq(p: ButtonProps) -> Seq<Seq<char>> {
    seq!["btn"@] + flag_seg(p.outlined, "btn-outline"@) + flag_seg(p.ghost_style, "btn-ghost"@)
        + flag_seg(p.loading, "loading"@) + flag_seg(p.active, "btn-active"@) + flag_seg(
        p.no_animation,
        "no-animation"@,
    ) + flag_seg(p.disabled, "btn-disabled"@) + opt_color_seg(p.color) + opt_size_seg(p.size)
        + opt_width_seg(p.width) + opt_shape_seg(p.shape)
}

/// Renders a button: computes the element kind, its exact class list, and
/// its attributes from the configuration. The disabled class and the
/// disabled attribute always travel together, both driven by the one
/// `disabled` flag.
#[allow(non_snake_case)]
#[verifier::rlimit(50)]
pub fn Button(props: ButtonProps) -> (r: ButtonRender)
    ensures
        views_of(r.classes@) == button_class_seq(props),
        r.disabled_attr == props.disabled,
        r.is_link == (props.kind is Link),
        (props.kind matches ButtonKind::Link(h) ==> r.href matches Some(t) && t@ == h@),
        (props.kind is Button ==> r.href is None),
{
    let mut classes: Vec<String> = Vec::new();
    push_class(&mut classes, "btn");
    let ghost mut want: Seq<Seq<char>> = seq!["btn"@];
    proof {
        assert(views_of(classes@) =~= want);
    }
    append_seg(&mut classes, flag_class_vec(props.outlined, "btn-outline"));
    proof {
        want = want + flag_seg(props.outlined, "btn-outline"@);
        assert(views_of(classes@) == want);
    }
    append_seg(&mut classes, flag_class_vec(props.ghost_style, "btn-ghost"));
    proof {
        want = want + flag_seg(props.ghost_style, "btn-ghost"@);
        assert(views_of(classes@) == want);
    }
    append_seg(&mut classes, flag_class_vec(props.loading, "loading"));
    proof {
        want = want + flag_seg(props.loading, "loading"@);
        assert(views_of(classes@) == want);
    }
    append_seg(&mut classes, flag_class_vec(props.active, "btn-active"));
    proof {
        want = want + flag_seg(props.active, "btn-active"@);
        assert(views_of(classes@) == want);
    }
    append_seg(&mut classes, flag_class_vec(props.no_animation, "no-animation"));
    proof {
        want = want + flag_seg(props.no_animation, "no-animation"@);
        assert(views_of(classes@) == want);
    }
    append_seg(&mut classes, flag_class_vec(props.disabled, "btn-disabled"));
    proof {
        want = want + flag_seg(props.disabled, "btn-disabled"@);
        assert(views_of(classes@) == want);
    }
    append_seg(&mut classes, color_seg_vec(props.color));
    proof {
        want = want + opt_color_seg(props.color);
        assert(views_of(classes@) == want);
    }
    append_seg(&mut classes, size_seg_vec(props.size));
    proof {
        want = want + opt_size_seg(props.size);
        assert(views_of(classes@) == want);
    }
    append_seg(&mut classes, width_seg_vec(props.width));
    proof {
        want = want + opt_width_seg(props.width);
        assert(views_of(classes@) == want);
    }
    append_seg(&mut classes, shape_seg_vec(props.shape));
    proof {
        want = want + opt_shape_seg(props.shape);
        assert(views_of(classes@) == want);
        assert(want == button_class_seq(props));
    }
    let (is_link, href) = match props.kind {
        ButtonKind::Button => (false, None),
        ButtonKind::Link(h) => (true, Some(h)),
    };
    ButtonRender { is_link, href, classes, disabled_attr: props.disabled }
}

/// Ground facts about every class fragment a button can emit: lengths, and
/// one distinguishing character for each pair of equal length.
proof fn button_pool_facts()
    ensures
        ""@.len() == 0,
        "btn"@.len() == 3,
        "glass"@.len() == 5,
        "btn-xs"@.len() == 6 && "btn-xs"@[4] == 'x',
        "btn-sm"@.len() == 6 && "btn-sm"@[4] == 's',
        "btn-md"@.len() == 6 && "btn-md"@[4] == 'm',
        "btn-lg"@.len() == 6 && "btn-lg"@[4] == 'l',
        "loading"@.len() == 7,
        "btn-info"@.len() == 8 && "btn-info"@[4] == 'i',
        "btn-wide"@.len() == 8 && "btn-wide"@[4] == 'w',
        "btn-ghost"@.len() == 9 && "btn-ghost"@[4] == 'g',
        "btn-error"@.len() == 9 && "btn-error"@[1] == 't' && "btn-error"@[4] == 'e',
        "btn-block"@.len() == 9 && "btn-block"@[1] == 't' && "btn-block"@[4] == 'b',
        "btn-active"@.len() == 10 && "btn-active"@[4] == 'a' && "btn-active"@[6] == 't',
        "btn-accent"@.len() == 10 && "btn-accent"@[4] == 'a' && "btn-accent"@[6] == 'c',
        "btn-square"@.len() == 10 && "btn-square"@[4] == 's',
        "btn-circle"@.len() == 10 && "btn-circle"@[4] == 'c',
        "btn-outline"@.len() == 11 && "btn-outline"@[4] == 'o',
        "btn-primary"@.len() == 11 && "btn-primary"@[4] == 'p',
        "btn-success"@.len() == 11 && "btn-success"@[4] == 's',
        "btn-warning"@.len() == 11 && "btn-warning"@[4] == 'w',
        "no-animation"@.len() == 12 && "no-animation"@[0] == 'n',
        "btn-disabled"@.len() == 12 && "btn-disabled"@[0] == 'b',
        "btn-secondary"@.len() == 13,
{
    reveal_strlit("");
    reveal_strlit("btn");
    reveal_strlit("glass");
    reveal_strlit("btn-xs");
    reveal_strlit("btn-sm");
    reveal_strlit("btn-md");
    reveal_strlit("btn-lg");
    reveal_strlit("loading");
    reveal_strlit("btn-info");
    reveal_strlit("btn-wide");
    reveal_strlit("btn-ghost");
    reveal_strlit("btn-error");
    reveal_strlit("btn-block");
    reveal_strlit("btn-active");
    reveal_strlit("btn-accent");
    reveal_strlit("btn-square");
    reveal_strlit("btn-circle");
    reveal_strlit("btn-outline");
    reveal_strlit("btn-primary");
    reveal_strlit("btn-success");
    reveal_strlit("btn-warning");
    reveal_strlit("no-animation");
    reveal_strlit("btn-disabled");
    reveal_strlit("btn-secondary");
}

/// Distinct button colors resolve to distinct class fragments: the
/// resolution is injective.
pub proof fn lemma_btn_color_class_injective(a: ButtonColor, b: ButtonColor)
    requires
        btn_color_class(a) == btn_color_class(b),
    ensures
        a == b,
{
    button_pool_facts();
}

/// Distinct button widths resolve to distinct class fragments.
pub proof fn lemma_btn_width_class_injective(a: ButtonWidth, b: ButtonWidth)
    requires
        btn_width_class(a) == btn_width_class(b),
    ensures
        a == b,
{
    button_pool_facts();
}

/// Distinct button shapes resolve to distinct class fragments.
pub proof fn lemma_btn_shape_class_injective(a: ButtonShape, b: ButtonShape)
    requires
        btn_shape_class(a) == btn_shape_class(b),
    ensures
        a == b,
{
    button_pool_facts();
}

/// Distinct sizes resolve to distinct button class fragments.
pub proof fn lemma_btn_size_class_injective(a: Size, b: Size)
    requires
        btn_size_class(a) == btn_size_class(b),
    ensures
        a == b,
{
    button_pool_facts();
}

/// The base class is always present, and each boolean flag's class appears
/// in the class list exactly when the flag is set. Together with the
/// `disabled_attr` clause of [`Button`], the disabled class and the
/// disabled attribute always appear together, and with `disabled` off,
/// neither appears.
#[verifier::rlimit(50)]
pub proof fn lemma_button_flag_classes(p: ButtonProps)
    ensures
        button_class_seq(p).contains("btn"@),
        button_class_seq(p).contains("btn-outline"@) <==> p.outlined,
        button_class_seq(p).contains("btn-ghost"@) <==> p.ghost_style,
        button_class_seq(p).contains("loading"@) <==> p.loading,
        button_class_seq(p).contains("btn-active"@) <==> p.active,
        button_class_seq(p).contains("no-animation"@) <==> p.no_animation,
        button_class_seq(p).contains("btn-disabled"@) <==> p.disabled,
{
    broadcast use crate::lemma_add_contains, crate::lemma_singleton_contains;

    button_pool_facts();
}

/// Decomposition of class-list membership: anything the class list
/// contains is the base class or comes from the one configured segment
/// that emits it.
#[verifier::rlimit(50)]
pub proof fn lemma_button_class_members(p: ButtonProps, x: Seq<char>)
    requires
        button_class_seq(p).contains(x),
    ensures
        x == "btn"@ || (p.outlined && x == "btn-outline"@) || (p.ghost_style && x == "btn-ghost"@)
            || (p.loading && x == "loading"@) || (p.active && x == "btn-active"@)
            || (p.no_animation && x == "no-animation"@) || (p.disabled && x == "btn-disabled"@)
            || (p.color matches Some(c) && x == btn_color_class(c)) || (p.size matches Some(s)
            && x == btn_size_class(s)) || (p.width matches Some(w) && x == btn_width_class(w)) || (
        p.shape matches Some(sh) && x == btn_shape_class(sh)),
{
    broadcast use crate::lemma_add_contains, crate::lemma_singleton_contains;

}

/// An absent color option contributes nothing: no (nonempty) color class
/// fragment appears in the class list.
pub proof fn lemma_button_absent_color(p: ButtonProps, c: ButtonColor)
    requires
        p.color is None,
        btn_color_class(c).len() != 0,
    ensures
        !button_class_seq(p).contains(btn_color_class(c)),
{
    button_pool_facts();
    if button_class_seq(p).contains(btn_color_class(c)) {
        lemma_button_class_members(p, btn_color_class(c));
    }
}

/// An absent size option contributes nothing: no (nonempty) size class
/// fragment appears in the class list.
pub proof fn lemma_button_absent_size(p: ButtonProps, s: Size)
    requires
        p.size is None,
        btn_size_class(s).len() != 0,
    ensures
        !button_class_seq(p).contains(btn_size_class(s)),
{
    button_pool_facts();
    if button_class_seq(p).contains(btn_size_class(s)) {
        lemma_button_class_members(p, btn_size_class(s));
    }
}

/// An absent width option contributes nothing: no (nonempty) width class
/// fragment appears in the class list.
pub proof fn lemma_button_absent_width(p: ButtonProps, w: ButtonWidth)
    requires
        p.width is None,
        btn_width_class(w).len() != 0,
    ensures
        !button_class_seq(p).contains(btn_width_class(w)),
{
    button_pool_facts();
    if button_class_seq(p).contains(btn_width_class(w)) {
        lemma_button_class_members(p, btn_width_class(w));
    }
}

/// An absent shape option contributes nothing: no (nonempty) shape class
/// fragment appears in the class list.
pub proof fn lemma_button_absent_shape(p: ButtonProps, s: ButtonShape)
    requires
        p.shape is None,
        btn_shape_class(s).len() != 0,
    ensures
        !button_class_seq(p).contains(btn_shape_class(s)),
{
    button_pool_facts();
    if button_class_seq(p).contains(btn_shape_class(s)) {
        lemma_button_class_members(p, btn_shape_class(s));
    }
}

/// With every optional style absent and every flag off, the button bears
/// exactly the base class.
pub proof fn lemma_button_plain(p: ButtonProps)
    requires
        p.color is None,
        p.size is None,
        p.width is None,
        p.shape is None,
        !p.outlined,
        !p.ghost_style,
        !p.active,
        !p.disabled,
        !p.loading,
        !p.no_animation,
    ensures
        button_class_seq(p) == seq!["btn"@],
{
    assert(button_class_seq(p) =~= seq!["btn"@]);
}

} // verus!

