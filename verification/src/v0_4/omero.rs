//! Transitional OMERO rendering metadata.

use vstd::prelude::*;

use crate::floats::{Float64, f64_lt};
use crate::json::JsonValue;
use crate::validation::{
    Accumulator, Key, Problem, Segment, SpecFailure, Validate, fail_at,
    lemma_with_prefix_nested, seq_failures, with_prefix,
};

verus! {

/// Information about the channels of an image and how to render it.
#[derive(Debug)]
pub struct Omero {
    /// Description of the channels of the image.
    pub channels: Vec<Channel>,
    /// Any other OMERO fields, carried through unchecked.
    pub other: Vec<(String, JsonValue)>,
}

/// One rendered channel of an image.
#[derive(Debug)]
pub struct Channel {
    /// Channel colour as a hex RGB string.
    pub color: HexColor,
    /// Windowing of the channel.
    pub window: Window,
    /// Any other OMERO channel fields, carried through unchecked.
    pub other: Vec<(String, JsonValue)>,
}

/// A colour as a six-digit hexadecimal RGB string.
#[derive(Debug, Clone)]
pub struct HexColor(String);

/// Whether the string is a valid hex colour: six ASCII hex digits.
pub open spec fn valid_hex_color(s: Seq<char>) -> bool {
    s.len() == 6 && forall|i: int|
        0 <= i < s.len() ==> ('0' <= #[trigger] s[i] <= '9' || 'a' <= s[i] <= 'f' || 'A' <= s[i]
            <= 'F')
}

impl View for HexColor {
    type V = Seq<char>;

    closed spec fn view(&self) -> Seq<char> {
        self.0@
    }
}

impl HexColor {
    /// The colour string.
    pub fn as_str(&self) -> (r: &str)
        ensures
            r@ == self@,
    {
        self.0.as_str()
    }

    /// Wrap a colour string, rejecting anything but six hex digits.
    pub fn try_from(value: String) -> (r: Result<HexColor, crate::errors::Error>)
        ensures
            valid_hex_color(value@) <==> r is Ok,
            r matches Ok(c) ==> c@ == value@,
            r matches Err(e) ==> e matches crate::errors::Error::InvalidColor(s) && s@ == value@,
    {
        let n = value.as_str().unicode_len();
        if n != 6 {
            return Err(crate::errors::Error::InvalidColor(value));
        }
        let mut i: usize = 0;
        while i < n
            invariant
                n == value@.len(),
                0 <= i <= n,
                forall|j: int|
                    0 <= j < i ==> ('0' <= #[trigger] value@[j] <= '9' || 'a' <= value@[j] <= 'f'
                        || 'A' <= value@[j] <= 'F'),
            decreases n - i,
        {
            let c = value.as_str().get_char(i);
            if !(('0' <= c && c <= '9') || ('a' <= c && c <= 'f') || ('A' <= c && c <= 'F')) {
                return Err(crate::errors::Error::InvalidColor(value));
            }
            i = i + 1;
        }
        Ok(HexColor(value))
    }
}

/// The windowing of a channel.
#[derive(Debug, Clone, Copy)]
pub struct Window {
    /// Minimum value of the window.
    pub min: Float64,
    /// Maximum value of the window.
    pub max: Float64,
    /// Start value of the window.
    pub start: Float64,
    /// End value of the window.
    pub end: Float64,
}

/// A window's maximum must not lie below its minimum, nor its end before
/// its start.
pub open spec fn window_failures(w: Window) -> Seq<SpecFailure> {
    (if f64_lt(w.max.bits, w.min.bits) {
        fail_at(Segment::Field(Key::Max), Problem::WindowMaxLessThanMin)
    } else {
        seq![]
    }) + (if f64_lt(w.end.bits, w.start.bits) {
        fail_at(Segment::Field(Key::End), Problem::WindowEndBeforeStart)
    } else {
        seq![]
    })
}

impl Validate for Window {
    open spec fn spec_failures(&self) -> Seq<SpecFailure> {
        window_failures(*self)
    }

    fn validate_inner(&self, accum: &mut Accumulator) {
        if self.max.lt(&self.min) {
            accum.add_failure_at(Segment::Field(Key::Max), Problem::WindowMaxLessThanMin);
        }
        if self.end.lt(&self.start) {
            accum.add_failure_at(Segment::Field(Key::End), Problem::WindowEndBeforeStart);
        }
        proof {
            assert(final(accum).fails() =~= old(accum).fails() + with_prefix(
                old(accum).prefix@,
                self.spec_failures(),
            ));
        }
    }
}

impl Validate for Channel {
    open spec fn spec_failures(&self) -> Seq<SpecFailure> {
        with_prefix(seq![Segment::Field(Key::Window)], window_failures(self.window))
    }

    fn validate_inner(&self, accum: &mut Accumulator) {
        let ghost p = old(accum).prefix@;
        accum.validate_member_at(Segment::Field(Key::Window), &self.window);
        proof {
            lemma_with_prefix_nested(
                p,
                seq![Segment::Field(Key::Window)],
                window_failures(self.window),
            );
            assert(final(accum).fails() =~= old(accum).fails() + with_prefix(
                p,
                self.spec_failures(),
            ));
        }
    }
}

impl Validate for Omero {
    open spec fn spec_failures(&self) -> Seq<SpecFailure> {
        with_prefix(seq![Segment::Field(Key::Channels)], seq_failures(self.channels@))
    }

    fn validate_inner(&self, accum: &mut Accumulator) {
        let ghost p = old(accum).prefix@;
        accum.push_key(Segment::Field(Key::Channels));
        accum.validate_iter(&self.channels);
        accum.pop_key();
        proof {
            assert(accum.prefix@ =~= p);
            lemma_with_prefix_nested(
                p,
                seq![Segment::Field(Key::Channels)],
                seq_failures(self.channels@),
            );
            assert(accum.fails() =~= old(accum).fails() + with_prefix(
                p,
                self.spec_failures(),
            ));
        }
    }
}

} // verus!
