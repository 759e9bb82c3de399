//! The swizzle accessors of `vec3`: every ordered selection, with
//! repetition, of two, three or four of its fields, each returning the
//! vector type of matching arity.

use crate::vec2::vec2;
use crate::vec3::vec3;
use crate::vec4::vec4;
use vstd::prelude::*;

verus! {

impl vec3 {
    /// Swizzle `xx`.
    pub fn xx(self) -> (r: vec2)
        ensures
            r.x == self.x,
            r.y == self.x,
    {
        vec2((self.x, self.x))
    }

    /// Swizzle `xy`.
    pub fn xy(self) -> (r: vec2)
        ensures
            r.x == self.x,
            r.y == self.y,
    {
        vec2((self.x, self.y))
    }

    /// Swizzle `xz`.
    pub fn xz(self) -> (r: vec2)
        ensures
            r.x == self.x,
            r.y == self.z,
    {
        vec2((self.x, self.z))
    }

    /// Swizzle `yx`.
    pub fn yx(self) -> (r: vec2)
        ensures
            r.x == self.y,
            r.y == self.x,
    {
        vec2((self.y, self.x))
    }

    /// Swizzle `yy`.
    pub fn yy(self) -> (r: vec2)
        ensures
            r.x == self.y,
            r.y == self.y,
    {
        vec2((self.y, self.y))
    }

    /// Swizzle `yz`.
    pub fn yz(self) -> (r: vec2)
        ensures
            r.x == self.y,
            r.y == self.z,
    {
        vec2((self.y, self.z))
    }

    /// Swizzle `zx`.
    pub fn zx(self) -> (r: vec2)
        ensures
            r.x == self.z,
            r.y == self.x,
    {
        vec2((self.z, self.x))
    }

    /// Swizzle `zy`.
    pub fn zy(self) -> (r: vec2)
        ensures
            r.x == self.z,
            r.y == self.y,
    {
        vec2((self.z, self.y))
    }

    /// Swizzle `zz`.
    pub fn zz(self) -> (r: vec2)
        ensures
            r.x == self.z,
            r.y == self.z,
    {
        vec2((self.z, self.z))
    }

    /// Swizzle `xxx`.
    pub fn xxx(self) -> (r: vec3)
        ensures
            r.x == self.x,
            r.y == self.x,
            r.z == self.x,
    {
        vec3((self.x, self.x, self.x))
    }

    /// Swizzle `xxy`.
    pub fn xxy(self) -> (r: vec3)
        ensures
            r.x == self.x,
            r.y == self.x,
            r.z == self.y,
    {
        vec3((self.x, self.x, self.y))
    }

    /// Swizzle `xxz`.
    pub fn xxz(self) -> (r: vec3)
        ensures
            r.x == self.x,
            r.y == self.x,
            r.z == self.z,
    {
        vec3((self.x, self.x, self.z))
    }

    /// Swizzle `xyx`.
    pub fn xyx(self) -> (r: vec3)
        ensures
            r.x == self.x,
            r.y == self.y,
            r.z == self.x,
    {
        vec3((self.x, self.y, self.x))
    }

    /// Swizzle `xyy`.
    pub fn xyy(self) -> (r: vec3)
        ensures
            r.x == self.x,
            r.y == self.y,
            r.z == self.y,
    {
        vec3((self.x, self.y, self.y))
    }

    /// Swizzle `xyz`.
    pub fn xyz(self) -> (r: vec3)
        ensures
            r.x == self.x,
            r.y == self.y,
            r.z == self.z,
            r == self,
    {
        vec3((self.x, self.y, self.z))
    }

    /// Swizzle `xzx`.
    pub fn xzx(self) -> (r: vec3)
        ensures
            r.x == self.x,
            r.y == self.z,
            r.z == self.x,
    {
        vec3((self.x, self.z, self.x))
    }

    /// Swizzle `xzy`.
    pub fn xzy(self) -> (r: vec3)
        ensures
            r.x == self.x,
            r.y == self.z,
            r.z == self.y,
    {
        vec3((self.x, self.z, self.y))
    }

    /// Swizzle `xzz`.
    pub fn xzz(self) -> (r: vec3)
        ensures
            r.x == self.x,
            r.y == self.z,
            r.z == self.z,
    {
        vec3((self.x, self.z, self.z))
    }

    /// Swizzle `yxx`.
    pub fn yxx(self) -> (r: vec3)
        ensures
            r.x == self.y,
            r.y == self.x,
            r.z == self.x,
    {
        vec3((self.y, self.x, self.x))
    }

    /// Swizzle `yxy`.
    pub fn yxy(self) -> (r: vec3)
        ensures
            r.x == self.y,
            r.y == self.x,
            r.z == self.y,
    {
        vec3((self.y, self.x, self.y))
    }

    /// Swizzle `yxz`.
    pub fn yxz(self) -> (r: vec3)
        ensures
            r.x == self.y,
            r.y == self.x,
            r.z == self.z,
    {
        vec3((self.y, self.x, self.z))
    }

    /// Swizzle `yyx`.
    pub fn yyx(self) -> (r: vec3)
        ensures
            r.x == self.y,
            r.y == self.y,
            r.z == self.x,
    {
        vec3((self.y, self.y, self.x))
    }

    /// Swizzle `yyy`.
    pub fn yyy(self) -> (r: vec3)
        ensures
            r.x == self.y,
            r.y == self.y,
            r.z == self.y,
    {
        vec3((self.y, self.y, self.y))
    }

    /// Swizzle `yyz`.
    pub fn yyz(self) -> (r: vec3)
        ensures
            r.x == self.y,
            r.y == self.y,
            r.z == self.z,
    {
        vec3((self.y, self.y, self.z))
    }

    /// Swizzle `yzx`.
    pub fn yzx(self) -> (r: vec3)
        ensures
            r.x == self.y,
            r.y == self.z,
            r.z == self.x,
    {
        vec3((self.y, self.z, self.x))
    }

    /// Swizzle `yzy`.
    pub fn yzy(self) -> (r: vec3)
        ensures
            r.x == self.y,
            r.y == self.z,
            r.z == self.y,
    {
        vec3((self.y, self.z, self.y))
    }

    /// Swizzle `yzz`.
    pub fn yzz(self) -> (r: vec3)
        ensures
            r.x == self.y,
            r.y == self.z,
            r.z == self.z,
    {
        vec3((self.y, self.z, self.z))
    }

    /// Swizzle `zxx`.
    pub fn zxx(self) -> (r: vec3)
        ensures
            r.x == self.z,
            r.y == self.x,
            r.z == self.x,
    {
        vec3((self.z, self.x, self.x))
    }

    /// Swizzle `zxy`.
    pub fn zxy(self) -> (r: vec3)
        ensures
            r.x == self.z,
            r.y == self.x,
            r.z == self.y,
    {
        vec3((self.z, self.x, self.y))
    }

    /// Swizzle `zxz`.
    pub fn zxz(self) -> (r: vec3)
        ensures
            r.x == self.z,
            r.y == self.x,
            r.z == self.z,
    {
        vec3((self.z, self.x, self.z))
    }

    /// Swizzle `zyx`.
    pub fn zyx(self) -> (r: vec3)
        ensures
            r.x == self.z,
            r.y == self.y,
            r.z == self.x,
    {
        vec3((self.z, self.y, self.x))
    }

    /// Swizzle `zyy`.
    pub fn zyy(self) -> (r: vec3)
        ensures
            r.x == self.z,
            r.y == self.y,
            r.z == self.y,
    {
        vec3((self.z, self.y, self.y))
    }

    /// Swizzle `zyz`.
    pub fn zyz(self) -> (r: vec3)
        ensures
            r.x == self.z,
            r.y == self.y,
            r.z == self.z,
    {
        vec3((self.z, self.y, self.z))
    }

    /// Swizzle `zzx`.
    pub fn zzx(self) -> (r: vec3)
        ensures
            r.x == self.z,
            r.y == self.z,
            r.z == self.x,
    {
        vec3((self.z, self.z, self.x))
    }

    /// Swizzle `zzy`.
    pub fn zzy(self) -> (r: vec3)
        ensures
            r.x == self.z,
            r.y == self.z,
            r.z == self.y,
    {
        vec3((self.z, self.z, self.y))
    }

    /// Swizzle `zzz`.
    pub fn zzz(self) -> (r: vec3)
        ensures
            r.x == self.z,
            r.y == self.z,
            r.z == self.z,
    {
        vec3((self.z, self.z, self.z))
    }

    /// Swizzle `xxxx`.
    pub fn xxxx(self) -> (r: vec4)
        ensures
            r.x == self.x,
            r.y == self.x,
            r.z == self.x,
            r.w == self.x,
    {
        vec4((self.x, self.x, self.x, self.x))
    }

    /// Swizzle `xxxy`.
    pub fn xxxy(self) -> (r: vec4)
        ensures
            r.x == self.x,
            r.y == self.x,
            r.z == self.x,
            r.w == self.y,
    {
        vec4((self.x, self.x, self.x, self.y))
    }

    /// Swizzle `xxxz`.
    pub fn xxxz(self) -> (r: vec4)
        ensures
            r.x == self.x,
            r.y == self.x,
            r.z == self.x,
            r.w == self.z,
    {
        vec4((self.x, self.x, self.x, self.z))
    }

    /// Swizzle `xxyx`.
    pub fn xxyx(self) -> (r: vec4)
        ensures
            r.x == self.x,
            r.y == self.x,
            r.z == self.y,
            r.w == self.x,
    {
        vec4((self.x, self.x, self.y, self.x))
    }

    /// Swizzle `xxyy`.
    pub fn xxyy(self) -> (r: vec4)
        ensures
            r.x == self.x,
            r.y == self.x,
            r.z == self.y,
            r.w == self.y,
    {
        vec4((self.x, self.x, self.y, self.y))
    }

    /// Swizzle `xxyz`.
    pub fn xxyz(self) -> (r: vec4)
        ensures
            r.x == self.x,
            r.y == self.x,
            r.z == self.y,
            r.w == self.z,
    {
        vec4((self.x, self.x, self.y, self.z))
    }

    /// Swizzle `xxzx`.
    pub fn xxzx(self) -> (r: vec4)
        ensures
            r.x == self.x,
            r.y == self.x,
            r.z == self.z,
            r.w == self.x,
    {
        vec4((self.x, self.x, self.z, self.x))
    }

    /// Swizzle `xxzy`.
    pub fn xxzy(self) -> (r: vec4)
        ensures
            r.x == self.x,
            r.y == self.x,
            r.z == self.z,
            r.w == self.y,
    {
        vec4((self.x, self.x, self.z, self.y))
    }

    /// Swizzle `xxzz`.
    pub fn xxzz(self) -> (r: vec4)
        ensures
            r.x == self.x,
            r.y == self.x,
            r.z == self.z,
            r.w == self.z,
    {
        vec4((self.x, self.x, self.z, self.z))
    }

    /// Swizzle `xyxx`.
    pub fn xyxx(self) -> (r: vec4)
        ensures
            r.x == self.x,
            r.y == self.y,
            r.z == self.x,
            r.w == self.x,
    {
        vec4((self.x, self.y, self.x, self.x))
    }

    /// Swizzle `xyxy`.
    pub fn xyxy(self) -> (r: vec4)
        ensures
            r.x == self.x,
            r.y == self.y,
            r.z == self.x,
            r.w == self.y,
    {
        vec4((self.x, self.y, self.x, self.y))
    }

    /// Swizzle `xyxz`.
    pub fn xyxz(self) -> (r: vec4)
        ensures
            r.x == self.x,
            r.y == self.y,
            r.z == self.x,
            r.w == self.z,
    {
        vec4((self.x, self.y, self.x, self.z))
    }

    /// Swizzle `xyyx`.
    pub fn xyyx(self) -> (r: vec4)
        ensures
            r.x == self.x,
            r.y == self.y,
            r.z == self.y,
            r.w == self.x,
    {
        vec4((self.x, self.y, self.y, self.x))
    }

    /// Swizzle `xyyy`.
    pub fn xyyy(self) -> (r: vec4)
        ensures
            r.x == self.x,
            r.y == self.y,
            r.z == self.y,
            r.w == self.y,
    {
        vec4((self.x, self.y, self.y, self.y))
    }

    /// Swizzle `xyyz`.
    pub fn xyyz(self) -> (r: vec4)
        ensures
            r.x == self.x,
            r.y == self.y,
            r.z == self.y,
            r.w == self.z,
    {
        vec4((self.x, self.y, self.y, self.z))
    }

    /// Swizzle `xyzx`.
    pub fn xyzx(self) -> (r: vec4)
        ensures
            r.x == self.x,
            r.y == self.y,
            r.z == self.z,
            r.w == self.x,
    {
        vec4((self.x, self.y, self.z, self.x))
    }

    /// Swizzle `xyzy`.
    pub fn xyzy(self) -> (r: vec4)
        ensures
            r.x == self.x,
            r.y == self.y,
            r.z == self.z,
            r.w == self.y,
    {
        vec4((self.x, self.y, self.z, self.y))
    }

    /// Swizzle `xyzz`.
    pub fn xyzz(self) -> (r: vec4)
        ensures
            r.x == self.x,
            r.y == self.y,
            r.z == self.z,
            r.w == self.z,
    {
        vec4((self.x, self.y, self.z, self.z))
    }

    /// Swizzle `xzxx`.
    pub fn xzxx(self) -> (r: vec4)
        ensures
            r.x == self.x,
            r.y == self.z,
            r.z == self.x,
            r.w == self.x,
    {
        vec4((self.x, self.z, self.x, self.x))
    }

    /// Swizzle `xzxy`.
    pub fn xzxy(self) -> (r: vec4)
        ensures
            r.x == self.x,
            r.y == self.z,
            r.z == self.x,
            r.w == self.y,
    {
        vec4((self.x, self.z, self.x, self.y))
    }

    /// Swizzle `xzxz`.
    pub fn xzxz(self) -> (r: vec4)
        ensures
            r.x == self.x,
            r.y == self.z,
            r.z == self.x,
            r.w == self.z,
    {
        vec4((self.x, self.z, self.x, self.z))
    }

    /// Swizzle `xzyx`.
    pub fn xzyx(self) -> (r: vec4)
        ensures
            r.x == self.x,
            r.y == self.z,
            r.z == self.y,
            r.w == self.x,
    {
        vec4((self.x, self.z, self.y, self.x))
    }

    /// Swizzle `xzyy`.
    pub fn xzyy(self) -> (r: vec4)
        ensures
            r.x == self.x,
            r.y == self.z,
            r.z == self.y,
            r.w == self.y,
    {
        vec4((self.x, self.z, self.y, self.y))
    }

    /// Swizzle `xzyz`.
    pub fn xzyz(self) -> (r: vec4)
        ensures
            r.x == self.x,
            r.y == self.z,
            r.z == self.y,
            r.w == self.z,
    {
        vec4((self.x, self.z, self.y, self.z))
    }

    /// Swizzle `xzzx`.
    pub fn xzzx(self) -> (r: vec4)
        ensures
            r.x == self.x,
            r.y == self.z,
            r.z == self.z,
            r.w == self.x,
    {
        vec4((self.x, self.z, self.z, self.x))
    }

    /// Swizzle `xzzy`.
    pub fn xzzy(self) -> (r: vec4)
        ensures
            r.x == self.x,
            r.y == self.z,
            r.z == self.z,
            r.w == self.y,
    {
        vec4((self.x, self.z, self.z, self.y))
    }

    /// Swizzle `xzzz`.
    pub fn xzzz(self) -> (r: vec4)
        ensures
            r.x == self.x,
            r.y == self.z,
            r.z == self.z,
            r.w == self.z,
    {
        vec4((self.x, self.z, self.z, self.z))
    }

    /// Swizzle `yxxx`.
    pub fn yxxx(self) -> (r: vec4)
        ensures
            r.x == self.y,
            r.y == self.x,
            r.z == self.x,
            r.w == self.x,
    {
        vec4((self.y, self.x, self.x, self.x))
    }

    /// Swizzle `yxxy`.
    pub fn yxxy(self) -> (r: vec4)
        ensures
            r.x == self.y,
            r.y == self.x,
            r.z == self.x,
            r.w == self.y,
    {
        vec4((self.y, self.x, self.x, self.y))
    }

    /// Swizzle `yxxz`.
    pub fn yxxz(self) -> (r: vec4)
        ensures
            r.x == self.y,
            r.y == self.x,
            r.z == self.x,
            r.w == self.z,
    {
        vec4((self.y, self.x, self.x, self.z))
    }

    /// Swizzle `yxyx`.
    pub fn yxyx(self) -> (r: vec4)
        ensures
            r.x == self.y,
            r.y == self.x,
            r.z == self.y,
            r.w == self.x,
    {
        vec4((self.y, self.x, self.y, self.x))
    }

    /// Swizzle `yxyy`.
    pub fn yxyy(self) -> (r: vec4)
        ensures
            r.x == self.y,
            r.y == self.x,
            r.z == self.y,
            r.w == self.y,
    {
        vec4((self.y, self.x, self.y, self.y))
    }

    /// Swizzle `yxyz`.
    pub fn yxyz(self) -> (r: vec4)
        ensures
            r.x == self.y,
            r.y == self.x,
            r.z == self.y,
            r.w == self.z,
    {
        vec4((self.y, self.x, self.y, self.z))
    }

    /// Swizzle `yxzx`.
    pub fn yxzx(self) -> (r: vec4)
        ensures
            r.x == self.y,
            r.y == self.x,
            r.z == self.z,
            r.w == self.x,
    {
        vec4((self.y, self.x, self.z, self.x))
    }

    /// Swizzle `yxzy`.
    pub fn yxzy(self) -> (r: vec4)
        ensures
            r.x == self.y,
            r.y == self.x,
            r.z == self.z,
            r.w == self.y,
    {
        vec4((self.y, self.x, self.z, self.y))
    }

    /// Swizzle `yxzz`.
    pub fn yxzz(self) -> (r: vec4)
        ensures
            r.x == self.y,
            r.y == self.x,
            r.z == self.z,
            r.w == self.z,
    {
        vec4((self.y, self.x, self.z, self.z))
    }

    /// Swizzle `yyxx`.
    pub fn yyxx(self) -> (r: vec4)
        ensures
            r.x == self.y,
            r.y == self.y,
            r.z == self.x,
            r.w == self.x,
    {
        vec4((self.y, self.y, self.x, self.x))
    }

    /// Swizzle `yyxy`.
    pub fn yyxy(self) -> (r: vec4)
        ensures
            r.x == self.y,
            r.y == self.y,
            r.z == self.x,
            r.w == self.y,
    {
        vec4((self.y, self.y, self.x, self.y))
    }

    /// Swizzle `yyxz`.
    pub fn yyxz(self) -> (r: vec4)
        ensures
            r.x == self.y,
            r.y == self.y,
            r.z == self.x,
            r.w == self.z,
    {
        vec4((self.y, self.y, self.x, self.z))
    }

    /// Swizzle `yyyx`.
    pub fn yyyx(self) -> (r: vec4)
        ensures
            r.x == self.y,
            r.y == self.y,
            r.z == self.y,
            r.w == self.x,
    {
        vec4((self.y, self.y, self.y, self.x))
    }

    /// Swizzle `yyyy`.
    pub fn yyyy(self) -> (r: vec4)
        ensures
            r.x == self.y,
            r.y == self.y,
            r.z == self.y,
            r.w == self.y,
    {
        vec4((self.y, self.y, self.y, self.y))
    }

    /// Swizzle `yyyz`.
    pub fn yyyz(self) -> (r: vec4)
        ensures
            r.x == self.y,
            r.y == self.y,
            r.z == self.y,
            r.w == self.z,
    {
        vec4((self.y, self.y, self.y, self.z))
    }

    /// Swizzle `yyzx`.
    pub fn yyzx(self) -> (r: vec4)
        ensures
            r.x == self.y,
            r.y == self.y,
            r.z == self.z,
            r.w == self.x,
    {
        vec4((self.y, self.y, self.z, self.x))
    }

    /// Swizzle `yyzy`.
    pub fn yyzy(self) -> (r: vec4)
        ensures
            r.x == self.y,
            r.y == self.y,
            r.z == self.z,
            r.w == self.y,
    {
        vec4((self.y, self.y, self.z, self.y))
    }

    /// Swizzle `yyzz`.
    pub fn yyzz(self) -> (r: vec4)
        ensures
            r.x == self.y,
            r.y == self.y,
            r.z == self.z,
            r.w == self.z,
    {
        vec4((self.y, self.y, self.z, self.z))
    }

    /// Swizzle `yzxx`.
    pub fn yzxx(self) -> (r: vec4)
        ensures
            r.x == self.y,
            r.y == self.z,
            r.z == self.x,
            r.w == self.x,
    {
        vec4((self.y, self.z, self.x, self.x))
    }

    /// Swizzle `yzxy`.
    pub fn yzxy(self) -> (r: vec4)
        ensures
            r.x == self.y,
            r.y == self.z,
            r.z == self.x,
            r.w == self.y,
    {
        vec4((self.y, self.z, self.x, self.y))
    }

    /// Swizzle `yzxz`.
    pub fn yzxz(self) -> (r: vec4)
        ensures
            r.x == self.y,
            r.y == self.z,
            r.z == self.x,
            r.w == self.z,
    {
        vec4((self.y, self.z, self.x, self.z))
    }

    /// Swizzle `yzyx`.
    pub fn yzyx(self) -> (r: vec4)
        ensures
            r.x == self.y,
            r.y == self.z,
            r.z == self.y,
            r.w == self.x,
    {
        vec4((self.y, self.z, self.y, self.x))
    }

    /// Swizzle `yzyy`.
    pub fn yzyy(self) -> (r: vec4)
        ensures
            r.x == self.y,
            r.y == self.z,
            r.z == self.y,
            r.w == self.y,
    {
        vec4((self.y, self.z, self.y, self.y))
    }

    /// Swizzle `yzyz`.
    pub fn yzyz(self) -> (r: vec4)
        ensures
            r.x == self.y,
            r.y == self.z,
            r.z == self.y,
            r.w == self.z,
    {
        vec4((self.y, self.z, self.y, self.z))
    }

    /// Swizzle `yzzx`.
    pub fn yzzx(self) -> (r: vec4)
        ensures
            r.x == self.y,
            r.y == self.z,
            r.z == self.z,
            r.w == self.x,
    {
        vec4((self.y, self.z, self.z, self.x))
    }

    /// Swizzle `yzzy`.
    pub fn yzzy(self) -> (r: vec4)
        ensures
            r.x == self.y,
            r.y == self.z,
            r.z == self.z,
            r.w == self.y,
    {
        vec4((self.y, self.z, self.z, self.y))
    }

    /// Swizzle `yzzz`.
    pub fn yzzz(self) -> (r: vec4)
        ensures
            r.x == self.y,
            r.y == self.z,
            r.z == self.z,
            r.w == self.z,
    {
        vec4((self.y, self.z, self.z, self.z))
    }

    /// Swizzle `zxxx`.
    pub fn zxxx(self) -> (r: vec4)
        ensures
            r.x == self.z,
            r.y == self.x,
            r.z == self.x,
            r.w == self.x,
    {
        vec4((self.z, self.x, self.x, self.x))
    }

    /// Swizzle `zxxy`.
    pub fn zxxy(self) -> (r: vec4)
        ensures
            r.x == self.z,
            r.y == self.x,
            r.z == self.x,
            r.w == self.y,
    {
        vec4((self.z, self.x, self.x, self.y))
    }

    /// Swizzle `zxxz`.
    pub fn zxxz(self) -> (r: vec4)
        ensures
            r.x == self.z,
            r.y == self.x,
            r.z == self.x,
            r.w == self.z,
    {
        vec4((self.z, self.x, self.x, self.z))
    }

    /// Swizzle `zxyx`.
    pub fn zxyx(self) -> (r: vec4)
        ensures
            r.x == self.z,
            r.y == self.x,
            r.z == self.y,
            r.w == self.x,
    {
        vec4((self.z, self.x, self.y, self.x))
    }

    /// Swizzle `zxyy`.
    pub fn zxyy(self) -> (r: vec4)
        ensures
            r.x == self.z,
            r.y == self.x,
            r.z == self.y,
            r.w == self.y,
    {
        vec4((self.z, self.x, self.y, self.y))
    }

    /// Swizzle `zxyz`.
    pub fn zxyz(self) -> (r: vec4)
        ensures
            r.x == self.z,
            r.y == self.x,
            r.z == self.y,
            r.w == self.z,
    {
        vec4((self.z, self.x, self.y, self.z))
    }

    /// Swizzle `zxzx`.
    pub fn zxzx(self) -> (r: vec4)
        ensures
            r.x == self.z,
            r.y == self.x,
            r.z == self.z,
            r.w == self.x,
    {
        vec4((self.z, self.x, self.z, self.x))
    }

    /// Swizzle `zxzy`.
    pub fn zxzy(self) -> (r: vec4)
        ensures
            r.x == self.z,
            r.y == self.x,
            r.z == self.z,
            r.w == self.y,
    {
        vec4((self.z, self.x, self.z, self.y))
    }

    /// Swizzle `zxzz`.
    pub fn zxzz(self) -> (r: vec4)
        ensures
            r.x == self.z,
            r.y == self.x,
            r.z == self.z,
            r.w == self.z,
    {
        vec4((self.z, self.x, self.z, self.z))
    }

    /// Swizzle `zyxx`.
    pub fn zyxx(self) -> (r: vec4)
        ensures
            r.x == self.z,
            r.y == self.y,
            r.z == self.x,
            r.w == self.x,
    {
        vec4((self.z, self.y, self.x, self.x))
    }

    /// Swizzle `zyxy`.
    pub fn zyxy(self) -> (r: vec4)
        ensures
            r.x == self.z,
            r.y == self.y,
            r.z == self.x,
            r.w == self.y,
    {
        vec4((self.z, self.y, self.x, self.y))
    }

    /// Swizzle `zyxz`.
    pub fn zyxz(self) -> (r: vec4)
        ensures
            r.x == self.z,
            r.y == self.y,
            r.z == self.x,
            r.w == self.z,
    {
        vec4((self.z, self.y, self.x, self.z))
    }

    /// Swizzle `zyyx`.
    pub fn zyyx(self) -> (r: vec4)
        ensures
            r.x == self.z,
            r.y == self.y,
            r.z == self.y,
            r.w == self.x,
    {
        vec4((self.z, self.y, self.y, self.x))
    }

    /// Swizzle `zyyy`.
    pub fn zyyy(self) -> (r: vec4)
        ensures
            r.x == self.z,
            r.y == self.y,
            r.z == self.y,
            r.w == self.y,
    {
        vec4((self.z, self.y, self.y, self.y))
    }

    /// Swizzle `zyyz`.
    pub fn zyyz(self) -> (r: vec4)
        ensures
            r.x == self.z,
            r.y == self.y,
            r.z == self.y,
            r.w == self.z,
    {
        vec4((self.z, self.y, self.y, self.z))
    }

    /// Swizzle `zyzx`.
    pub fn zyzx(self) -> (r: vec4)
        ensures
            r.x == self.z,
            r.y == self.y,
            r.z == self.z,
            r.w == self.x,
    {
        vec4((self.z, self.y, self.z, self.x))
    }

    /// Swizzle `zyzy`.
    pub fn zyzy(self) -> (r: vec4)
        ensures
            r.x == self.z,
            r.y == self.y,
            r.z == self.z,
            r.w == self.y,
    {
        vec4((self.z, self.y, self.z, self.y))
    }

    /// Swizzle `zyzz`.
    pub fn zyzz(self) -> (r: vec4)
        ensures
            r.x == self.z,
            r.y == self.y,
            r.z == self.z,
            r.w == self.z,
    {
        vec4((self.z, self.y, self.z, self.z))
    }

    /// Swizzle `zzxx`.
    pub fn zzxx(self) -> (r: vec4)
        ensures
            r.x == self.z,
            r.y == self.z,
            r.z == self.x,
            r.w == self.x,
    {
        vec4((self.z, self.z, self.x, self.x))
    }

    /// Swizzle `zzxy`.
    pub fn zzxy(self) -> (r: vec4)
        ensures
            r.x == self.z,
            r.y == self.z,
            r.z == self.x,
            r.w == self.y,
    {
        vec4((self.z, self.z, self.x, self.y))
    }

    /// Swizzle `zzxz`.
    pub fn zzxz(self) -> (r: vec4)
        ensures
            r.x == self.z,
            r.y == self.z,
            r.z == self.x,
            r.w == self.z,
    {
        vec4((self.z, self.z, self.x, self.z))
    }

    /// Swizzle `zzyx`.
    pub fn zzyx(self) -> (r: vec4)
        ensures
            r.x == self.z,
            r.y == self.z,
            r.z == self.y,
            r.w == self.x,
    {
        vec4((self.z, self.z, self.y, self.x))
    }

    /// Swizzle `zzyy`.
    pub fn zzyy(self) -> (r: vec4)
        ensures
            r.x == self.z,
            r.y == self.z,
            r.z == self.y,
            r.w == self.y,
    {
        vec4((self.z, self.z, self.y, self.y))
    }

    /// Swizzle `zzyz`.
    pub fn zzyz(self) -> (r: vec4)
        ensures
            r.x == self.z,
            r.y == self.z,
            r.z == self.y,
            r.w == self.z,
    {
        vec4((self.z, self.z, self.y, self.z))
    }

    /// Swizzle `zzzx`.
    pub fn zzzx(self) -> (r: vec4)
        ensures
            r.x == self.z,
            r.y == self.z,
            r.z == self.z,
            r.w == self.x,
    {
        vec4((self.z, self.z, self.z, self.x))
    }

    /// Swizzle `zzzy`.
    pub fn zzzy(self) -> (r: vec4)
        ensures
            r.x == self.z,
            r.y == self.z,
            r.z == self.z,
            r.w == self.y,
    {
        vec4((self.z, self.z, self.z, self.y))
    }

    /// Swizzle `zzzz`.
    pub fn zzzz(self) -> (r: vec4)
        ensures
            r.x == self.z,
            r.y == self.z,
            r.z == self.z,
            r.w == self.z,
    {
        vec4((self.z, self.z, self.z, self.z))
    }
}

} // verus!
