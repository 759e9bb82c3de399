//! The swizzle accessors of `vec2`: every ordered selection, with
//! repetition, of two, three or four of its fields, each returning the
//! vector type of matching arity.

use crate::vec2::vec2;
use crate::vec3::vec3;
use crate::vec4::vec4;
use vstd::prelude::*;

verus! {

impl vec2 {
    /// Swizzle `xx`.
    pub fn xx(self) -> (r: vec2)
        ensures
            r.x == self.x,
            r.y == self.x,
    {
        vec2((self.x, self.x))
    }

    /// Swizzle `xy`.
    pub fn xy(self) -> (r: vec2)
        ensures
            r.x == self.x,
            r.y == self.y,
            r == self,
    {
        vec2((self.x, self.y))
    }

    /// Swizzle `yx`.
    pub fn yx(self) -> (r: vec2)
        ensures
            r.x == self.y,
            r.y == self.x,
    {
        vec2((self.y, self.x))
    }

    /// Swizzle `yy`.
    pub fn yy(self) -> (r: vec2)
        ensures
            r.x == self.y,
            r.y == self.y,
    {
        vec2((self.y, self.y))
    }

    /// Swizzle `xxx`.
    pub fn xxx(self) -> (r: vec3)
        ensures
            r.x == self.x,
            r.y == self.x,
            r.z == self.x,
    {
        vec3((self.x, self.x, self.x))
    }

    /// Swizzle `xxy`.
    pub fn xxy(self) -> (r: vec3)
        ensures
            r.x == self.x,
            r.y == self.x,
            r.z == self.y,
    {
        vec3((self.x, self.x, self.y))
    }

    /// Swizzle `xyx`.
    pub fn xyx(self) -> (r: vec3)
        ensures
            r.x == self.x,
            r.y == self.y,
            r.z == self.x,
    {
        vec3((self.x, self.y, self.x))
    }

    /// Swizzle `xyy`.
    pub fn xyy(self) -> (r: vec3)
        ensures
            r.x == self.x,
            r.y == self.y,
            r.z == self.y,
    {
        vec3((self.x, self.y, self.y))
    }

    /// Swizzle `yxx`.
    pub fn yxx(self) -> (r: vec3)
        ensures
            r.x == self.y,
            r.y == self.x,
            r.z == self.x,
    {
        vec3((self.y, self.x, self.x))
    }

    /// Swizzle `yxy`.
    pub fn yxy(self) -> (r: vec3)
        ensures
            r.x == self.y,
            r.y == self.x,
            r.z == self.y,
    {
        vec3((self.y, self.x, self.y))
    }

    /// Swizzle `yyx`.
    pub fn yyx(self) -> (r: vec3)
        ensures
            r.x == self.y,
            r.y == self.y,
            r.z == self.x,
    {
        vec3((self.y, self.y, self.x))
    }

    /// Swizzle `yyy`.
    pub fn yyy(self) -> (r: vec3)
        ensures
            r.x == self.y,
            r.y == self.y,
            r.z == self.y,
    {
        vec3((self.y, self.y, self.y))
    }

    /// Swizzle `xxxx`.
    pub fn xxxx(self) -> (r: vec4)
        ensures
            r.x == self.x,
            r.y == self.x,
            r.z == self.x,
            r.w == self.x,
    {
        vec4((self.x, self.x, self.x, self.x))
    }

    /// Swizzle `xxxy`.
    pub fn xxxy(self) -> (r: vec4)
        ensures
            r.x == self.x,
            r.y == self.x,
            r.z == self.x,
            r.w == self.y,
    {
        vec4((self.x, self.x, self.x, self.y))
    }

    /// Swizzle `xxyx`.
    pub fn xxyx(self) -> (r: vec4)
        ensures
            r.x == self.x,
            r.y == self.x,
            r.z == self.y,
            r.w == self.x,
    {
        vec4((self.x, self.x, self.y, self.x))
    }

    /// Swizzle `xxyy`.
    pub fn xxyy(self) -> (r: vec4)
        ensures
            r.x == self.x,
            r.y == self.x,
            r.z == self.y,
            r.w == self.y,
    {
        vec4((self.x, self.x, self.y, self.y))
    }

    /// Swizzle `xyxx`.
    pub fn xyxx(self) -> (r: vec4)
        ensures
            r.x == self.x,
            r.y == self.y,
            r.z == self.x,
            r.w == self.x,
    {
        vec4((self.x, self.y, self.x, self.x))
    }

    /// Swizzle `xyxy`.
    pub fn xyxy(self) -> (r: vec4)
        ensures
            r.x == self.x,
            r.y == self.y,
            r.z == self.x,
            r.w == self.y,
    {
        vec4((self.x, self.y, self.x, self.y))
    }

    /// Swizzle `xyyx`.
    pub fn xyyx(self) -> (r: vec4)
        ensures
            r.x == self.x,
            r.y == self.y,
            r.z == self.y,
            r.w == self.x,
    {
        vec4((self.x, self.y, self.y, self.x))
    }

    /// Swizzle `xyyy`.
    pub fn xyyy(self) -> (r: vec4)
        ensures
            r.x == self.x,
            r.y == self.y,
            r.z == self.y,
            r.w == self.y,
    {
        vec4((self.x, self.y, self.y, self.y))
    }

    /// Swizzle `yxxx`.
    pub fn yxxx(self) -> (r: vec4)
        ensures
            r.x == self.y,
            r.y == self.x,
            r.z == self.x,
            r.w == self.x,
    {
        vec4((self.y, self.x, self.x, self.x))
    }

    /// Swizzle `yxxy`.
    pub fn yxxy(self) -> (r: vec4)
        ensures
            r.x == self.y,
            r.y == self.x,
            r.z == self.x,
            r.w == self.y,
    {
        vec4((self.y, self.x, self.x, self.y))
    }

    /// Swizzle `yxyx`.
    pub fn yxyx(self) -> (r: vec4)
        ensures
            r.x == self.y,
            r.y == self.x,
            r.z == self.y,
            r.w == self.x,
    {
        vec4((self.y, self.x, self.y, self.x))
    }

    /// Swizzle `yxyy`.
    pub fn yxyy(self) -> (r: vec4)
        ensures
            r.x == self.y,
            r.y == self.x,
            r.z == self.y,
            r.w == self.y,
    {
        vec4((self.y, self.x, self.y, self.y))
    }

    /// Swizzle `yyxx`.
    pub fn yyxx(self) -> (r: vec4)
        ensures
            r.x == self.y,
            r.y == self.y,
            r.z == self.x,
            r.w == self.x,
    {
        vec4((self.y, self.y, self.x, self.x))
    }

    /// Swizzle `yyxy`.
    pub fn yyxy(self) -> (r: vec4)
        ensures
            r.x == self.y,
            r.y == self.y,
            r.z == self.x,
            r.w == self.y,
    {
        vec4((self.y, self.y, self.x, self.y))
    }

    /// Swizzle `yyyx`.
    pub fn yyyx(self) -> (r: vec4)
        ensures
            r.x == self.y,
            r.y == self.y,
            r.z == self.y,
            r.w == self.x,
    {
        vec4((self.y, self.y, self.y, self.x))
    }

    /// Swizzle `yyyy`.
    pub fn yyyy(self) -> (r: vec4)
        ensures
            r.x == self.y,
            r.y == self.y,
            r.z == self.y,
            r.w == self.y,
    {
        vec4((self.y, self.y, self.y, self.y))
    }
}

} // verus!
