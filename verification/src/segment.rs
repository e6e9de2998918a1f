//! What the detector hands to the prompt: a module of named, styled
//! segments.

use vstd::prelude::*;

verus! {

/// `ansi_term::Colour`, with its variants as `ansi_term` declares them.
#[verifier::external_type_specification]
pub struct ExColour(ansi_term::Colour);

/// `ansi_term::Style`, with its fields as `ansi_term` declares them, all of
/// them public.
#[verifier::external_type_specification]
pub struct ExStyle(ansi_term::Style);

/// The style with no property set.
pub open spec fn plain_style() -> ansi_term::Style {
    ansi_term::Style {
        foreground: None,
        background: None,
        is_bold: false,
        is_dimmed: false,
        is_italic: false,
        is_underline: false,
        is_blink: false,
        is_reverse: false,
        is_hidden: false,
        is_strikethrough: false,
    }
}

/// The style that has `colour` as its foreground, is bold, and has no other
/// property set.
pub open spec fn bold_style(colour: ansi_term::Colour) -> ansi_term::Style {
    ansi_term::Style { foreground: Some(colour), is_bold: true, ..plain_style() }
}

/// `ansi_term::Colour::bold`: the style with this colour as its foreground and
/// the bold property set, and nothing else.
pub assume_specification[ ansi_term::Colour::bold ](colour: ansi_term::Colour) -> (style:
    ansi_term::Style)
    ensures
        style == bold_style(colour),
;

/// A named piece of text of a module.
#[derive(Debug, PartialEq, Eq)]
pub struct Segment {
    pub name: String,
    pub value: String,
}

/// The mathematical content of a [`Segment`].
pub struct SegmentView {
    pub name: Seq<char>,
    pub value: Seq<char>,
}

impl View for Segment {
    type V = SegmentView;

    open spec fn view(&self) -> SegmentView {
        SegmentView { name: self.name@, value: self.value@ }
    }
}

/// What a detector contributes to the prompt: its segments in the order in
/// which they are shown, and the style in which they are painted.
#[derive(Debug, PartialEq)]
pub struct Module {
    pub name: String,
    pub style: ansi_term::Style,
    pub segments: Vec<Segment>,
}

/// The mathematical content of a [`Module`].
pub struct ModuleView {
    pub name: Seq<char>,
    pub style: ansi_term::Style,
    pub segments: Seq<SegmentView>,
}

impl View for Module {
    type V = ModuleView;

    open spec fn view(&self) -> ModuleView {
        ModuleView {
            name: self.name@,
            style: self.style,
            segments: Seq::new(self.segments@.len(), |i: int| self.segments@[i]@),
        }
    }
}

impl Module {
    /// A module of the given name with no segment and no style property
    /// set.
    pub fn new(name: &str) -> (module: Module)
        ensures
            module@ == (ModuleView {
                name: name@,
                style: plain_style(),
                segments: Seq::<SegmentView>::empty(),
            }),
    {
        let style = ansi_term::Style {
            foreground: None,
            background: None,
            is_bold: false,
            is_dimmed: false,
            is_italic: false,
            is_underline: false,
            is_blink: false,
            is_reverse: false,
            is_hidden: false,
            is_strikethrough: false,
        };
        let module = Module { name: name.to_owned(), style, segments: Vec::new() };
        proof {
            assert(module@.segments =~= Seq::<SegmentView>::empty());
        }
        module
    }

    /// Sets the style in which the segments are painted.
    pub fn set_style(&mut self, style: ansi_term::Style)
        ensures
            final(self)@ == (ModuleView { style, ..old(self)@ }),
    {
        self.style = style;
    }

    /// Appends a segment.
    pub fn new_segment(&mut self, name: &str, value: &str)
        ensures
            final(self)@ == (ModuleView {
                segments: old(self)@.segments.push(SegmentView { name: name@, value: value@ }),
                ..old(self)@
            }),
    {
        self.segments.push(Segment { name: name.to_owned(), value: value.to_owned() });
        proof {
            assert(self@.segments =~= old(self)@.segments.push(
                SegmentView { name: name@, value: value@ },
            ));
        }
    }
}

} // verus!
