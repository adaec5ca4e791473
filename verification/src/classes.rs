//! The class manifest: the full, fixed list of every class name the two
//! components can ever emit, one per line, each line terminated by a
//! newline. A style-purging tool is pointed at this list so it keeps these
//! classes; the text is computed here, and the build step that writes it
//! to its well-known file lives outside the verified core.

use crate::{push_class, views_of};
use vstd::prelude::*;

verus! {

/// Every class name the text input can emit, in its fixed manifest order.
pub open spec fn text_input_manifest() -> Seq<Seq<char>> {
    seq![
        "form-control"@,
        "label"@,
        "input"@,
        "input-bordered"@,
        "input-ghost"@,
        "input-primary"@,
        "input-secondary"@,
        "input-accent"@,
        "input-info"@,
        "input-success"@,
        "input-warning"@,
        "input-error"@,
        "input-lg"@,
        "input-md"@,
        "input-sm"@,
        "input-xs"@,
    ]
}

/// Every class name the button can emit, in its fixed manifest order.
pub open spec fn button_manifest() -> Seq<Seq<char>> {
    seq![
        "btn"@,
        "btn-primary"@,
        "btn-secondary"@,
        "btn-accent"@,
        "btn-info"@,
        "btn-success"@,
        "btn-warning"@,
        "btn-error"@,
        "btn-ghost"@,
        "btn-link"@,
        "btn-outline"@,
        "btn-active"@,
        "btn-disabled"@,
        "glass"@,
        "loading"@,
        "no-animation"@,
        "btn-lg"@,
        "btn-md"@,
        "btn-sm"@,
        "btn-xs"@,
        "btn-wide"@,
        "btn-block"@,
        "btn-circle"@,
        "btn-square"@,
    ]
}

/// The manifest lines for the enabled components: the text-input block
/// first, then the button block, each included exactly when its component
/// is enabled.
pub open spec fn manifest_line_seq(button: bool, text_input: bool) -> Seq<Seq<char>> {
    (if text_input {
        text_input_manifest()
    } else {
        Seq::empty()
    }) + (if button {
        button_manifest()
    } else {
        Seq::empty()
    })
}

/// Lines joined into one text, each line terminated by a newline.
pub open spec fn joined_lines(lines: Seq<Seq<char>>) -> Seq<char>
    decreases lines.len(),
{
    if lines.len() == 0 {
        Seq::empty()
    } else {
        joined_lines(lines.drop_last()) + lines.last() + seq!['\n']
    }
}

/// Builds the manifest lines for the enabled components.
pub fn manifest_lines(button: bool, text_input: bool) -> (r: Vec<String>)
    ensures
        views_of(r@) == manifest_line_seq(button, text_input),
{
    let mut v: Vec<String> = Vec::new();
    if text_input {
        push_class(&mut v, "form-control");
        push_class(&mut v, "label");
        push_class(&mut v, "input");
        push_class(&mut v, "input-bordered");
        push_class(&mut v, "input-ghost");
        push_class(&mut v, "input-primary");
        push_class(&mut v, "input-secondary");
        push_class(&mut v, "input-accent");
        push_class(&mut v, "input-info");
        push_class(&mut v, "input-success");
        push_class(&mut v, "input-warning");
        push_class(&mut v, "input-error");
        push_class(&mut v, "input-lg");
        push_class(&mut v, "input-md");
        push_class(&mut v, "input-sm");
        push_class(&mut v, "input-xs");
        proof {
            assert(views_of(v@) =~= text_input_manifest());
        }
    }
    proof {
        assert(views_of(v@) =~= (if text_input {
            text_input_manifest()
        } else {
            Seq::<Seq<char>>::empty()
        }));
    }
    if button {
        push_class(&mut v, "btn");
        push_class(&mut v, "btn-primary");
        push_class(&mut v, "btn-secondary");
        push_class(&mut v, "btn-accent");
        push_class(&mut v, "btn-info");
        push_class(&mut v, "btn-success");
        push_class(&mut v, "btn-warning");
        push_class(&mut v, "btn-error");
        push_class(&mut v, "btn-ghost");
        push_class(&mut v, "btn-link");
        push_class(&mut v, "btn-outline");
        push_class(&mut v, "btn-active");
        push_class(&mut v, "btn-disabled");
        push_class(&mut v, "glass");
        push_class(&mut v, "loading");
        push_class(&mut v, "no-animation");
        push_class(&mut v, "btn-lg");
        push_class(&mut v, "btn-md");
        push_class(&mut v, "btn-sm");
        push_class(&mut v, "btn-xs");
        push_class(&mut v, "btn-wide");
        push_class(&mut v, "btn-block");
        push_class(&mut v, "btn-circle");
        push_class(&mut v, "btn-square");
    }
    proof {
        assert(views_of(v@) =~= manifest_line_seq(button, text_input));
    }
    v
}

/// Joins lines into one text, terminating every line with a newline.
pub fn manifest_text(lines: &Vec<String>) -> (r: String)
    ensures
        r@ == joined_lines(views_of(lines@)),
{
    let mut out = String::new();
    let mut i: usize = 0;
    while i < lines.len()
        invariant
            i <= lines@.len(),
            out@ == joined_lines(views_of(lines@).take(i as int)),
        decreases lines@.len() - i,
    {
        let line: &String = &lines[i];
        out.append(line.as_str());
        out.append("\n");
        proof {
            reveal_strlit("\n");
            let all = views_of(lines@);
            assert(all.take(i as int + 1).drop_last() =~= all.take(i as int));
            assert(all.take(i as int + 1).last() == all[i as int]);
            assert(out@ =~= joined_lines(all.take(i as int + 1)));
        }
        i += 1;
    }
    proof {
        assert(views_of(lines@).take(lines@.len() as int) =~= views_of(lines@));
    }
    out
}

/// The whole manifest for the enabled components: the text-input block
/// first, then the button block, every class name on a line of its own
/// and every line terminated by a newline.
pub fn include_component_classes(button: bool, text_input: bool) -> (r: String)
    ensures
        r@ == joined_lines(manifest_line_seq(button, text_input)),
{
    let lines = manifest_lines(button, text_input);
    manifest_text(&lines)
}

} // verus!
