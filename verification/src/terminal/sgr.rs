//! Select Graphic Rendition.
use crate::color::Color;
use crate::terminal::model::{sgr, sgr_simple, Model};
use crate::terminal::{Attribute, ColorRequest, Effect, Screen};
use crate::terminal::report::given_at;
use vstd::prelude::*;

verus! {

impl Screen {
    /// What one parameter of SGR, other than 38 and 48, makes of the
    /// attribute.
    pub fn sgr_one(&self, p: u16) -> (attr: Attribute)
        ensures
            attr == sgr_simple(self@.attr, self@.default, self@.palette, p as int),
    {
        let default = Attribute { fg: self.config.fg, bg: self.config.bg };
        let count: usize = self.config.colors.len();
        if p == 0 || p == 27 {
            default
        } else if p == 7 {
            Attribute { fg: default.bg, bg: default.fg }
        } else if p == 39 {
            Attribute { fg: default.fg, bg: self.attr.bg }
        } else if p == 49 {
            Attribute { fg: self.attr.fg, bg: default.bg }
        } else if 30 <= p && p <= 37 && ((p - 30) as usize) < count {
            Attribute { fg: self.config.colors[(p - 30) as usize], bg: self.attr.bg }
        } else if 90 <= p && p <= 97 && ((p - 90) as usize) < count {
            Attribute { fg: self.config.colors[(p - 90) as usize], bg: self.attr.bg }
        } else if 40 <= p && p <= 47 && ((p - 40) as usize) < count {
            Attribute { fg: self.attr.fg, bg: self.config.colors[(p - 40) as usize] }
        } else if 100 <= p && p <= 107 && ((p - 100) as usize) < count {
            Attribute { fg: self.attr.fg, bg: self.config.colors[(p - 100) as usize] }
        } else {
            self.attr
        }
    }

    /// Applies the parameters of SGR from index `from` on. At a direct
    /// colour it stops and hands out the request: the host answers with
    /// `grant` and calls again from the request's `next`.
    pub fn sgr(&mut self, params: &[u16], from: usize) -> (effect: Effect)
        requires
            old(self)@.wf(),
        ensures
            (final(self)@, effect@) == old(self)@.sgr_from(params@, from as int),
            final(self)@.wf(),
    {
        let ghost before = self@;
        let mut at: usize = from;
        while at < params.len()
            invariant
                before == old(self)@,
                before.wf(),
                self@ == (Model { attr: self@.attr, ..before }),
                sgr(before.attr, before.default, before.palette, params@, from as int) == sgr(
                    self@.attr,
                    before.default,
                    before.palette,
                    params@,
                    at as int,
                ),
            decreases params.len() - at,
        {
            let p: u16 = params[at];
            if p == 38 || p == 48 {
                if at + 1 >= params.len() || params[at + 1] == 2 {
                    let raw = Color::new(
                        given_at(params, at, 2) as u64,
                        given_at(params, at, 3) as u64,
                        given_at(params, at, 4) as u64,
                    );
                    let next: usize = if params.len() - at > 5 {
                        at + 5
                    } else {
                        params.len()
                    };
                    return Effect::Color(ColorRequest { raw, background: p == 48, next });
                } else if params[at + 1] == 5 {
                    at = if params.len() - at > 3 {
                        at + 2
                    } else {
                        params.len() - 1
                    };
                }
            } else {
                self.attr = self.sgr_one(p);
            }
            at += 1;
        }
        Effect::Nothing
    }

    /// Takes the answer to a request for a direct colour.
    pub fn grant(&mut self, request: &ColorRequest, granted: bool)
        requires
            old(self)@.wf(),
        ensures
            final(self)@ == old(self)@.grant(*request, granted),
            final(self)@.wf(),
    {
        if granted {
            if request.background {
                self.attr.bg = request.raw;
            } else {
                self.attr.fg = request.raw;
            }
        }
    }
}

} // verus!
