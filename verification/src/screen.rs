//! A model of the pixel display as the handler sees it: a drawing surface of
//! known dimensions whose visible frame is either indeterminate, cleared to a
//! background color, or a cleared background with one status line painted at
//! a fixed anchor. The pixel transport itself is out of scope; a transport
//! fault is modeled by a flag, and any drawing call made while the surface is
//! faulty errs and leaves the frame indeterminate (half-drawn).

use vstd::prelude::*;
use crate::render::Line;

verus! {

/// The colors this device ever paints with.
#[derive(Clone, Copy, Debug, PartialEq, Eq, Structural)]
pub enum Color {
    Black,
    Green,
}

/// Foreground and background of a painted text line.
#[derive(Clone, Copy, Debug, PartialEq, Eq, Structural)]
pub struct TextStyle {
    pub foreground: Color,
    pub background: Color,
}

/// What the visible frame shows.
pub enum Frame {
    /// Nothing is known of the frame (power-on, or a drawing call failed
    /// part-way).
    Indeterminate,
    /// The whole frame is filled with one background color.
    Cleared { background: Color },
    /// A cleared background with one text line painted on it.
    Painted { background: Color, text: String, anchor_x: i32, anchor_y: i32, style: TextStyle },
}

/// A failure of the drawing surface while pixels were being written.
#[derive(Clone, Copy, Debug, PartialEq, Eq, Structural)]
pub enum DrawError {
    Transport,
}

/// The display resource: dimensions, a transport-fault flag, and the frame.
pub struct Screen {
    pub width: u32,
    pub height: u32,
    /// Models a failing pixel transport; every drawing call on a faulty
    /// surface errs.
    pub fault: bool,
    pub frame: Frame,
}

impl Screen {
    /// A fresh surface with the given dimensions and an unknown frame.
    pub fn new(width: u32, height: u32) -> (r: Screen)
        ensures
            r.width == width,
            r.height == height,
            !r.fault,
            r.frame is Indeterminate,
    {
        Screen { width, height, fault: false, frame: Frame::Indeterminate }
    }

    /// Fills the whole visible rectangle with one color.
    pub fn fill(&mut self, background: Color) -> (r: Result<(), DrawError>)
        ensures
            final(self).width == old(self).width,
            final(self).height == old(self).height,
            final(self).fault == old(self).fault,
            !old(self).fault ==> r is Ok && final(self).frame == (Frame::Cleared { background }),
            old(self).fault ==> r is Err && final(self).frame is Indeterminate,
            r is Err ==> r->Err_0 == DrawError::Transport,
    {
        if self.fault {
            self.frame = Frame::Indeterminate;
            Err(DrawError::Transport)
        } else {
            self.frame = Frame::Cleared { background };
            Ok(())
        }
    }

    /// Draws one text line at an anchor position onto a cleared frame.
    pub fn draw_text(&mut self, line: &Line, anchor_x: i32, anchor_y: i32, style: TextStyle) -> (r:
        Result<(), DrawError>)
        requires
            old(self).frame is Cleared,
        ensures
            final(self).width == old(self).width,
            final(self).height == old(self).height,
            final(self).fault == old(self).fault,
            !old(self).fault ==> {
                &&& r is Ok
                &&& final(self).frame matches Frame::Painted {
                    background,
                    text,
                    anchor_x: ax,
                    anchor_y: ay,
                    style: st,
                } && background == old(self).frame->Cleared_background && text@ == line@ && ax
                    == anchor_x && ay == anchor_y && st == style
            },
            old(self).fault ==> r is Err && final(self).frame is Indeterminate,
            r is Err ==> r->Err_0 == DrawError::Transport,
    {
        if self.fault {
            self.frame = Frame::Indeterminate;
            Err(DrawError::Transport)
        } else {
            let background = match &self.frame {
                Frame::Cleared { background } => *background,
                _ => Color::Black,
            };
            self.frame = Frame::Painted {
                background,
                text: line.to_text(),
                anchor_x,
                anchor_y,
                style,
            };
            Ok(())
        }
    }
}

} // verus!
