//! The swizzle accessors of `vec4`: every ordered selection, with
//! repetition, of two, three or four of its fields, each returning the
//! vector type of matching arity.

use crate::vec2::vec2;
use crate::vec3::vec3;
use crate::vec4::vec4;
use vstd::prelude::*;

verus! {

impl vec4 {
    /// Swizzle `xx`.
    pub fn xx(self) -> (r: vec2)
        ensures
            r.x == self.x,
            r.y == self.x,
    {
        vec2((self.x, self.x))
    }

    /// Swizzle `xy`.
    pub fn xy(self) -> (r: vec2)
        ensures
            r.x == self.x,
            r.y == self.y,
    {
        vec2((self.x, self.y))
    }

    /// Swizzle `xz`.
    pub fn xz(self) -> (r: vec2)
        ensures
            r.x == self.x,
            r.y == self.z,
    {
        vec2((self.x, self.z))
    }

    /// Swizzle `xw`.
    pub fn xw(self) -> (r: vec2)
        ensures
            r.x == self.x,
            r.y == self.w,
    {
        vec2((self.x, self.w))
    }

    /// Swizzle `yx`.
    pub fn yx(self) -> (r: vec2)
        ensures
            r.x == self.y,
            r.y == self.x,
    {
        vec2((self.y, self.x))
    }

    /// Swizzle `yy`.
    pub fn yy(self) -> (r: vec2)
        ensures
            r.x == self.y,
            r.y == self.y,
    {
        vec2((self.y, self.y))
    }

    /// Swizzle `yz`.
    pub fn yz(self) -> (r: vec2)
        ensures
            r.x == self.y,
            r.y == self.z,
    {
        vec2((self.y, self.z))
    }

    /// Swizzle `yw`.
    pub fn yw(self) -> (r: vec2)
        ensures
            r.x == self.y,
            r.y == self.w,
    {
        vec2((self.y, self.w))
    }

    /// Swizzle `zx`.
    pub fn zx(self) -> (r: vec2)
        ensures
            r.x == self.z,
            r.y == self.x,
    {
        vec2((self.z, self.x))
    }

    /// Swizzle `zy`.
    pub fn zy(self) -> (r: vec2)
        ensures
            r.x == self.z,
            r.y == self.y,
    {
        vec2((self.z, self.y))
    }

    /// Swizzle `zz`.
    pub fn zz(self) -> (r: vec2)
        ensures
            r.x == self.z,
            r.y == self.z,
    {
        vec2((self.z, self.z))
    }

    /// Swizzle `zw`.
    pub fn zw(self) -> (r: vec2)
        ensures
            r.x == self.z,
            r.y == self.w,
    {
        vec2((self.z, self.w))
    }

    /// Swizzle `wx`.
    pub fn wx(self) -> (r: vec2)
        ensures
            r.x == self.w,
            r.y == self.x,
    {
        vec2((self.w, self.x))
    }

    /// Swizzle `wy`.
    pub fn wy(self) -> (r: vec2)
        ensures
            r.x == self.w,
            r.y == self.y,
    {
        vec2((self.w, self.y))
    }

    /// Swizzle `wz`.
    pub fn wz(self) -> (r: vec2)
        ensures
            r.x == self.w,
            r.y == self.z,
    {
        vec2((self.w, self.z))
    }

    /// Swizzle `ww`.
    pub fn ww(self) -> (r: vec2)
        ensures
            r.x == self.w,
            r.y == self.w,
    {
        vec2((self.w, self.w))
    }

    /// Swizzle `xxx`.
    pub fn xxx(self) -> (r: vec3)
        ensures
            r.x == self.x,
            r.y == self.x,
            r.z == self.x,
    {
        vec3((self.x, self.x, self.x))
    }

    /// Swizzle `xxy`.
    pub fn xxy(self) -> (r: vec3)
        ensures
            r.x == self.x,
            r.y == self.x,
            r.z == self.y,
    {
        vec3((self.x, self.x, self.y))
    }

    /// Swizzle `xxz`.
    pub fn xxz(self) -> (r: vec3)
        ensures
            r.x == self.x,
            r.y == self.x,
            r.z == self.z,
    {
        vec3((self.x, self.x, self.z))
    }

    /// Swizzle `xxw`.
    pub fn xxw(self) -> (r: vec3)
        ensures
            r.x == self.x,
            r.y == self.x,
            r.z == self.w,
    {
        vec3((self.x, self.x, self.w))
    }

    /// Swizzle `xyx`.
    pub fn xyx(self) -> (r: vec3)
        ensures
            r.x == self.x,
            r.y == self.y,
            r.z == self.x,
    {
        vec3((self.x, self.y, self.x))
    }

    /// Swizzle `xyy`.
    pub fn xyy(self) -> (r: vec3)
        ensures
            r.x == self.x,
            r.y == self.y,
            r.z == self.y,
    {
        vec3((self.x, self.y, self.y))
    }

    /// Swizzle `xyz`.
    pub fn xyz(self) -> (r: vec3)
        ensures
            r.x == self.x,
            r.y == self.y,
            r.z == self.z,
    {
        vec3((self.x, self.y, self.z))
    }

    /// Swizzle `xyw`.
    pub fn xyw(self) -> (r: vec3)
        ensures
            r.x == self.x,
            r.y == self.y,
            r.z == self.w,
    {
        vec3((self.x, self.y, self.w))
    }

    /// Swizzle `xzx`.
    pub fn xzx(self) -> (r: vec3)
        ensures
            r.x == self.x,
            r.y == self.z,
            r.z == self.x,
    {
        vec3((self.x, self.z, self.x))
    }

    /// Swizzle `xzy`.
    pub fn xzy(self) -> (r: vec3)
        ensures
            r.x == self.x,
            r.y == self.z,
            r.z == self.y,
    {
        vec3((self.x, self.z, self.y))
    }

    /// Swizzle `xzz`.
    pub fn xzz(self) -> (r: vec3)
        ensures
            r.x == self.x,
            r.y == self.z,
            r.z == self.z,
    {
        vec3((self.x, self.z, self.z))
    }

    /// Swizzle `xzw`.
    pub fn xzw(self) -> (r: vec3)
        ensures
            r.x == self.x,
            r.y == self.z,
            r.z == self.w,
    {
        vec3((self.x, self.z, self.w))
    }

    /// Swizzle `xwx`.
    pub fn xwx(self) -> (r: vec3)
        ensures
            r.x == self.x,
            r.y == self.w,
            r.z == self.x,
    {
        vec3((self.x, self.w, self.x))
    }

    /// Swizzle `xwy`.
    pub fn xwy(self) -> (r: vec3)
        ensures
            r.x == self.x,
            r.y == self.w,
            r.z == self.y,
    {
        vec3((self.x, self.w, self.y))
    }

    /// Swizzle `xwz`.
    pub fn xwz(self) -> (r: vec3)
        ensures
            r.x == self.x,
            r.y == self.w,
            r.z == self.z,
    {
        vec3((self.x, self.w, self.z))
    }

    /// Swizzle `xww`.
    pub fn xww(self) -> (r: vec3)
        ensures
            r.x == self.x,
            r.y == self.w,
            r.z == self.w,
    {
        vec3((self.x, self.w, self.w))
    }

    /// Swizzle `yxx`.
    pub fn yxx(self) -> (r: vec3)
        ensures
            r.x == self.y,
            r.y == self.x,
            r.z == self.x,
    {
        vec3((self.y, self.x, self.x))
    }

    /// Swizzle `yxy`.
    pub fn yxy(self) -> (r: vec3)
        ensures
            r.x == self.y,
            r.y == self.x,
            r.z == self.y,
    {
        vec3((self.y, self.x, self.y))
    }

    /// Swizzle `yxz`.
    pub fn yxz(self) -> (r: vec3)
        ensures
            r.x == self.y,
            r.y == self.x,
            r.z == self.z,
    {
        vec3((self.y, self.x, self.z))
    }

    /// Swizzle `yxw`.
    pub fn yxw(self) -> (r: vec3)
        ensures
            r.x == self.y,
            r.y == self.x,
            r.z == self.w,
    {
        vec3((self.y, self.x, self.w))
    }

    /// Swizzle `yyx`.
    pub fn yyx(self) -> (r: vec3)
        ensures
            r.x == self.y,
            r.y == self.y,
            r.z == self.x,
    {
        vec3((self.y, self.y, self.x))
    }

    /// Swizzle `yyy`.
    pub fn yyy(self) -> (r: vec3)
        ensures
            r.x == self.y,
            r.y == self.y,
            r.z == self.y,
    {
        vec3((self.y, self.y, self.y))
    }

    /// Swizzle `yyz`.
    pub fn yyz(self) -> (r: vec3)
        ensures
            r.x == self.y,
            r.y == self.y,
            r.z == self.z,
    {
        vec3((self.y, self.y, self.z))
    }

    /// Swizzle `yyw`.
    pub fn yyw(self) -> (r: vec3)
        ensures
            r.x == self.y,
            r.y == self.y,
            r.z == self.w,
    {
        vec3((self.y, self.y, self.w))
    }

    /// Swizzle `yzx`.
    pub fn yzx(self) -> (r: vec3)
        ensures
            r.x == self.y,
            r.y == self.z,
            r.z == self.x,
    {
        vec3((self.y, self.z, self.x))
    }

    /// Swizzle `yzy`.
    pub fn yzy(self) -> (r: vec3)
        ensures
            r.x == self.y,
            r.y == self.z,
            r.z == self.y,
    {
        vec3((self.y, self.z, self.y))
    }

    /// Swizzle `yzz`.
    pub fn yzz(self) -> (r: vec3)
        ensures
            r.x == self.y,
            r.y == self.z,
            r.z == self.z,
    {
        vec3((self.y, self.z, self.z))
    }

    /// Swizzle `yzw`.
    pub fn yzw(self) -> (r: vec3)
        ensures
            r.x == self.y,
            r.y == self.z,
            r.z == self.w,
    {
        vec3((self.y, self.z, self.w))
    }

    /// Swizzle `ywx`.
    pub fn ywx(self) -> (r: vec3)
        ensures
            r.x == self.y,
            r.y == self.w,
            r.z == self.x,
    {
        vec3((self.y, self.w, self.x))
    }

    /// Swizzle `ywy`.
    pub fn ywy(self) -> (r: vec3)
        ensures
            r.x == self.y,
            r.y == self.w,
            r.z == self.y,
    {
        vec3((self.y, self.w, self.y))
    }

    /// Swizzle `ywz`.
    pub fn ywz(self) -> (r: vec3)
        ensures
            r.x == self.y,
            r.y == self.w,
            r.z == self.z,
    {
        vec3((self.y, self.w, self.z))
    }

    /// Swizzle `yww`.
    pub fn yww(self) -> (r: vec3)
        ensures
            r.x == self.y,
            r.y == self.w,
            r.z == self.w,
    {
        vec3((self.y, self.w, self.w))
    }

    /// Swizzle `zxx`.
    pub fn zxx(self) -> (r: vec3)
        ensures
            r.x == self.z,
            r.y == self.x,
            r.z == self.x,
    {
        vec3((self.z, self.x, self.x))
    }

    /// Swizzle `zxy`.
    pub fn zxy(self) -> (r: vec3)
        ensures
            r.x == self.z,
            r.y == self.x,
            r.z == self.y,
    {
        vec3((self.z, self.x, self.y))
    }

    /// Swizzle `zxz`.
    pub fn zxz(self) -> (r: vec3)
        ensures
            r.x == self.z,
            r.y == self.x,
            r.z == self.z,
    {
        vec3((self.z, self.x, self.z))
    }

    /// Swizzle `zxw`.
    pub fn zxw(self) -> (r: vec3)
        ensures
            r.x == self.z,
            r.y == self.x,
            r.z == self.w,
    {
        vec3((self.z, self.x, self.w))
    }

    /// Swizzle `zyx`.
    pub fn zyx(self) -> (r: vec3)
        ensures
            r.x == self.z,
            r.y == self.y,
            r.z == self.x,
    {
        vec3((self.z, self.y, self.x))
    }

    /// Swizzle `zyy`.
    pub fn zyy(self) -> (r: vec3)
        ensures
            r.x == self.z,
            r.y == self.y,
            r.z == self.y,
    {
        vec3((self.z, self.y, self.y))
    }

    /// Swizzle `zyz`.
    pub fn zyz(self) -> (r: vec3)
        ensures
            r.x == self.z,
            r.y == self.y,
            r.z == self.z,
    {
        vec3((self.z, self.y, self.z))
    }

    /// Swizzle `zyw`.
    pub fn zyw(self) -> (r: vec3)
        ensures
            r.x == self.z,
            r.y == self.y,
            r.z == self.w,
    {
        vec3((self.z, self.y, self.w))
    }

    /// Swizzle `zzx`.
    pub fn zzx(self) -> (r: vec3)
        ensures
            r.x == self.z,
            r.y == self.z,
            r.z == self.x,
    {
        vec3((self.z, self.z, self.x))
    }

    /// Swizzle `zzy`.
    pub fn zzy(self) -> (r: vec3)
        ensures
            r.x == self.z,
            r.y == self.z,
            r.z == self.y,
    {
        vec3((self.z, self.z, self.y))
    }

    /// Swizzle `zzz`.
    pub fn zzz(self) -> (r: vec3)
        ensures
            r.x == self.z,
            r.y == self.z,
            r.z == self.z,
    {
        vec3((self.z, self.z, self.z))
    }

    /// Swizzle `zzw`.
    pub fn zzw(self) -> (r: vec3)
        ensures
            r.x == self.z,
            r.y == self.z,
            r.z == self.w,
    {
        vec3((self.z, self.z, self.w))
    }

    /// Swizzle `zwx`.
    pub fn zwx(self) -> (r: vec3)
        ensures
            r.x == self.z,
            r.y == self.w,
            r.z == self.x,
    {
        vec3((self.z, self.w, self.x))
    }

    /// Swizzle `zwy`.
    pub fn zwy(self) -> (r: vec3)
        ensures
            r.x == self.z,
            r.y == self.w,
            r.z == self.y,
    {
        vec3((self.z, self.w, self.y))
    }

    /// Swizzle `zwz`.
    pub fn zwz(self) -> (r: vec3)
        ensures
            r.x == self.z,
            r.y == self.w,
            r.z == self.z,
    {
        vec3((self.z, self.w, self.z))
    }

    /// Swizzle `zww`.
    pub fn zww(self) -> (r: vec3)
        ensures
            r.x == self.z,
            r.y == self.w,
            r.z == self.w,
    {
        vec3((self.z, self.w, self.w))
    }

    /// Swizzle `wxx`.
    pub fn wxx(self) -> (r: vec3)
        ensures
            r.x == self.w,
            r.y == self.x,
            r.z == self.x,
    {
        vec3((self.w, self.x, self.x))
    }

    /// Swizzle `wxy`.
    pub fn wxy(self) -> (r: vec3)
        ensures
            r.x == self.w,
            r.y == self.x,
            r.z == self.y,
    {
        vec3((self.w, self.x, self.y))
    }

    /// Swizzle `wxz`.
    pub fn wxz(self) -> (r: vec3)
        ensures
            r.x == self.w,
            r.y == self.x,
            r.z == self.z,
    {
        vec3((self.w, self.x, self.z))
    }

    /// Swizzle `wxw`.
    pub fn wxw(self) -> (r: vec3)
        ensures
            r.x == self.w,
            r.y == self.x,
            r.z == self.w,
    {
        vec3((self.w, self.x, self.w))
    }

    /// Swizzle `wyx`.
    pub fn wyx(self) -> (r: vec3)
        ensures
            r.x == self.w,
            r.y == self.y,
            r.z == self.x,
    {
        vec3((self.w, self.y, self.x))
    }

    /// Swizzle `wyy`.
    pub fn wyy(self) -> (r: vec3)
        ensures
            r.x == self.w,
            r.y == self.y,
            r.z == self.y,
    {
        vec3((self.w, self.y, self.y))
    }

    /// Swizzle `wyz`.
    pub fn wyz(self) -> (r: vec3)
        ensures
            r.x == self.w,
            r.y == self.y,
            r.z == self.z,
    {
        vec3((self.w, self.y, self.z))
    }

    /// Swizzle `wyw`.
    pub fn wyw(self) -> (r: vec3)
        ensures
            r.x == self.w,
            r.y == self.y,
            r.z == self.w,
    {
        vec3((self.w, self.y, self.w))
    }

    /// Swizzle `wzx`.
    pub fn wzx(self) -> (r: vec3)
        ensures
            r.x == self.w,
            r.y == self.z,
            r.z == self.x,
    {
        vec3((self.w, self.z, self.x))
    }

    /// Swizzle `wzy`.
    pub fn wzy(self) -> (r: vec3)
        ensures
            r.x == self.w,
            r.y == self.z,
            r.z == self.y,
    {
        vec3((self.w, self.z, self.y))
    }

    /// Swizzle `wzz`.
    pub fn wzz(self) -> (r: vec3)
        ensures
            r.x == self.w,
            r.y == self.z,
            r.z == self.z,
    {
        vec3((self.w, self.z, self.z))
    }

    /// Swizzle `wzw`.
    pub fn wzw(self) -> (r: vec3)
        ensures
            r.x == self.w,
            r.y == self.z,
            r.z == self.w,
    {
        vec3((self.w, self.z, self.w))
    }

    /// Swizzle `wwx`.
    pub fn wwx(self) -> (r: vec3)
        ensures
            r.x == self.w,
            r.y == self.w,
            r.z == self.x,
    {
        vec3((self.w, self.w, self.x))
    }

    /// Swizzle `wwy`.
    pub fn wwy(self) -> (r: vec3)
        ensures
            r.x == self.w,
            r.y == self.w,
            r.z == self.y,
    {
        vec3((self.w, self.w, self.y))
    }

    /// Swizzle `wwz`.
    pub fn wwz(self) -> (r: vec3)
        ensures
            r.x == self.w,
            r.y == self.w,
            r.z == self.z,
    {
        vec3((self.w, self.w, self.z))
    }

    /// Swizzle `www`.
    pub fn www(self) -> (r: vec3)
        ensures
            r.x == self.w,
            r.y == self.w,
            r.z == self.w,
    {
        vec3((self.w, self.w, self.w))
    }

    /// Swizzle `xxxx`.
    pub fn xxxx(self) -> (r: vec4)
        ensures
            r.x == self.x,
            r.y == self.x,
            r.z == self.x,
            r.w == self.x,
    {
        vec4((self.x, self.x, self.x, self.x))
    }

    /// Swizzle `xxxy`.
    pub fn xxxy(self) -> (r: vec4)
        ensures
            r.x == self.x,
            r.y == self.x,
            r.z == self.x,
            r.w == self.y,
    {
        vec4((self.x, self.x, self.x, self.y))
    }

    /// Swizzle `xxxz`.
    pub fn xxxz(self) -> (r: vec4)
        ensures
            r.x == self.x,
            r.y == self.x,
            r.z == self.x,
            r.w == self.z,
    {
        vec4((self.x, self.x, self.x, self.z))
    }

    /// Swizzle `xxxw`.
    pub fn xxxw(self) -> (r: vec4)
        ensures
            r.x == self.x,
            r.y == self.x,
            r.z == self.x,
            r.w == self.w,
    {
        vec4((self.x, self.x, self.x, self.w))
    }

    /// Swizzle `xxyx`.
    pub fn xxyx(self) -> (r: vec4)
        ensures
            r.x == self.x,
            r.y == self.x,
            r.z == self.y,
            r.w == self.x,
    {
        vec4((self.x, self.x, self.y, self.x))
    }

    /// Swizzle `xxyy`.
    pub fn xxyy(self) -> (r: vec4)
        ensures
            r.x == self.x,
            r.y == self.x,
            r.z == self.y,
            r.w == self.y,
    {
        vec4((self.x, self.x, self.y, self.y))
    }

    /// Swizzle `xxyz`.
    pub fn xxyz(self) -> (r: vec4)
        ensures
            r.x == self.x,
            r.y == self.x,
            r.z == self.y,
            r.w == self.z,
    {
        vec4((self.x, self.x, self.y, self.z))
    }

    /// Swizzle `xxyw`.
    pub fn xxyw(self) -> (r: vec4)
        ensures
            r.x == self.x,
            r.y == self.x,
            r.z == self.y,
            r.w == self.w,
    {
        vec4((self.x, self.x, self.y, self.w))
    }

    /// Swizzle `xxzx`.
    pub fn xxzx(self) -> (r: vec4)
        ensures
            r.x == self.x,
            r.y == self.x,
            r.z == self.z,
            r.w == self.x,
    {
        vec4((self.x, self.x, self.z, self.x))
    }

    /// Swizzle `xxzy`.
    pub fn xxzy(self) -> (r: vec4)
        ensures
            r.x == self.x,
            r.y == self.x,
            r.z == self.z,
            r.w == self.y,
    {
        vec4((self.x, self.x, self.z, self.y))
    }

    /// Swizzle `xxzz`.
    pub fn xxzz(self) -> (r: vec4)
        ensures
            r.x == self.x,
            r.y == self.x,
            r.z == self.z,
            r.w == self.z,
    {
        vec4((self.x, self.x, self.z, self.z))
    }

    /// Swizzle `xxzw`.
    pub fn xxzw(self) -> (r: vec4)
        ensures
            r.x == self.x,
            r.y == self.x,
            r.z == self.z,
            r.w == self.w,
    {
        vec4((self.x, self.x, self.z, self.w))
    }

    /// Swizzle `xxwx`.
    pub fn xxwx(self) -> (r: vec4)
        ensures
            r.x == self.x,
            r.y == self.x,
            r.z == self.w,
            r.w == self.x,
    {
        vec4((self.x, self.x, self.w, self.x))
    }

    /// Swizzle `xxwy`.
    pub fn xxwy(self) -> (r: vec4)
        ensures
            r.x == self.x,
            r.y == self.x,
            r.z == self.w,
            r.w == self.y,
    {
        vec4((self.x, self.x, self.w, self.y))
    }

    /// Swizzle `xxwz`.
    pub fn xxwz(self) -> (r: vec4)
        ensures
            r.x == self.x,
            r.y == self.x,
            r.z == self.w,
            r.w == self.z,
    {
        vec4((self.x, self.x, self.w, self.z))
    }

    /// Swizzle `xxww`.
    pub fn xxww(self) -> (r: vec4)
        ensures
            r.x == self.x,
            r.y == self.x,
            r.z == self.w,
            r.w == self.w,
    {
        vec4((self.x, self.x, self.w, self.w))
    }

    /// Swizzle `xyxx`.
    pub fn xyxx(self) -> (r: vec4)
        ensures
            r.x == self.x,
            r.y == self.y,
            r.z == self.x,
            r.w == self.x,
    {
        vec4((self.x, self.y, self.x, self.x))
    }

    /// Swizzle `xyxy`.
    pub fn xyxy(self) -> (r: vec4)
        ensures
            r.x == self.x,
            r.y == self.y,
            r.z == self.x,
            r.w == self.y,
    {
        vec4((self.x, self.y, self.x, self.y))
    }

    /// Swizzle `xyxz`.
    pub fn xyxz(self) -> (r: vec4)
        ensures
            r.x == self.x,
            r.y == self.y,
            r.z == self.x,
            r.w == self.z,
    {
        vec4((self.x, self.y, self.x, self.z))
    }

    /// Swizzle `xyxw`.
    pub fn xyxw(self) -> (r: vec4)
        ensures
            r.x == self.x,
            r.y == self.y,
            r.z == self.x,
            r.w == self.w,
    {
        vec4((self.x, self.y, self.x, self.w))
    }

    /// Swizzle `xyyx`.
    pub fn xyyx(self) -> (r: vec4)
        ensures
            r.x == self.x,
            r.y == self.y,
            r.z == self.y,
            r.w == self.x,
    {
        vec4((self.x, self.y, self.y, self.x))
    }

    /// Swizzle `xyyy`.
    pub fn xyyy(self) -> (r: vec4)
        ensures
            r.x == self.x,
            r.y == self.y,
            r.z == self.y,
            r.w == self.y,
    {
        vec4((self.x, self.y, self.y, self.y))
    }

    /// Swizzle `xyyz`.
    pub fn xyyz(self) -> (r: vec4)
        ensures
            r.x == self.x,
            r.y == self.y,
            r.z == self.y,
            r.w == self.z,
    {
        vec4((self.x, self.y, self.y, self.z))
    }

    /// Swizzle `xyyw`.
    pub fn xyyw(self) -> (r: vec4)
        ensures
            r.x == self.x,
            r.y == self.y,
            r.z == self.y,
            r.w == self.w,
    {
        vec4((self.x, self.y, self.y, self.w))
    }

    /// Swizzle `xyzx`.
    pub fn xyzx(self) -> (r: vec4)
        ensures
            r.x == self.x,
            r.y == self.y,
            r.z == self.z,
            r.w == self.x,
    {
        vec4((self.x, self.y, self.z, self.x))
    }

    /// Swizzle `xyzy`.
    pub fn xyzy(self) -> (r: vec4)
        ensures
            r.x == self.x,
            r.y == self.y,
            r.z == self.z,
            r.w == self.y,
    {
        vec4((self.x, self.y, self.z, self.y))
    }

    /// Swizzle `xyzz`.
    pub fn xyzz(self) -> (r: vec4)
        ensures
            r.x == self.x,
            r.y == self.y,
            r.z == self.z,
            r.w == self.z,
    {
        vec4((self.x, self.y, self.z, self.z))
    }

    /// Swizzle `xyzw`.
    pub fn xyzw(self) -> (r: vec4)
        ensures
            r.x == self.x,
            r.y == self.y,
            r.z == self.z,
            r.w == self.w,
            r == self,
    {
        vec4((self.x, self.y, self.z, self.w))
    }

    /// Swizzle `xywx`.
    pub fn xywx(self) -> (r: vec4)
        ensures
            r.x == self.x,
            r.y == self.y,
            r.z == self.w,
            r.w == self.x,
    {
        vec4((self.x, self.y, self.w, self.x))
    }

    /// Swizzle `xywy`.
    pub fn xywy(self) -> (r: vec4)
        ensures
            r.x == self.x,
            r.y == self.y,
            r.z == self.w,
            r.w == self.y,
    {
        vec4((self.x, self.y, self.w, self.y))
    }

    /// Swizzle `xywz`.
    pub fn xywz(self) -> (r: vec4)
        ensures
            r.x == self.x,
            r.y == self.y,
            r.z == self.w,
            r.w == self.z,
    {
        vec4((self.x, self.y, self.w, self.z))
    }

    /// Swizzle `xyww`.
    pub fn xyww(self) -> (r: vec4)
        ensures
            r.x == self.x,
            r.y == self.y,
            r.z == self.w,
            r.w == self.w,
    {
        vec4((self.x, self.y, self.w, self.w))
    }

    /// Swizzle `xzxx`.
    pub fn xzxx(self) -> (r: vec4)
        ensures
            r.x == self.x,
            r.y == self.z,
            r.z == self.x,
            r.w == self.x,
    {
        vec4((self.x, self.z, self.x, self.x))
    }

    /// Swizzle `xzxy`.
    pub fn xzxy(self) -> (r: vec4)
        ensures
            r.x == self.x,
            r.y == self.z,
            r.z == self.x,
            r.w == self.y,
    {
        vec4((self.x, self.z, self.x, self.y))
    }

    /// Swizzle `xzxz`.
    pub fn xzxz(self) -> (r: vec4)
        ensures
            r.x == self.x,
            r.y == self.z,
            r.z == self.x,
            r.w == self.z,
    {
        vec4((self.x, self.z, self.x, self.z))
    }

    /// Swizzle `xzxw`.
    pub fn xzxw(self) -> (r: vec4)
        ensures
            r.x == self.x,
            r.y == self.z,
            r.z == self.x,
            r.w == self.w,
    {
        vec4((self.x, self.z, self.x, self.w))
    }

    /// Swizzle `xzyx`.
    pub fn xzyx(self) -> (r: vec4)
        ensures
            r.x == self.x,
            r.y == self.z,
            r.z == self.y,
            r.w == self.x,
    {
        vec4((self.x, self.z, self.y, self.x))
    }

    /// Swizzle `xzyy`.
    pub fn xzyy(self) -> (r: vec4)
        ensures
            r.x == self.x,
            r.y == self.z,
            r.z == self.y,
            r.w == self.y,
    {
        vec4((self.x, self.z, self.y, self.y))
    }

    /// Swizzle `xzyz`.
    pub fn xzyz(self) -> (r: vec4)
        ensures
            r.x == self.x,
            r.y == self.z,
            r.z == self.y,
            r.w == self.z,
    {
        vec4((self.x, self.z, self.y, self.z))
    }

    /// Swizzle `xzyw`.
    pub fn xzyw(self) -> (r: vec4)
        ensures
            r.x == self.x,
            r.y == self.z,
            r.z == self.y,
            r.w == self.w,
    {
        vec4((self.x, self.z, self.y, self.w))
    }

    /// Swizzle `xzzx`.
    pub fn xzzx(self) -> (r: vec4)
        ensures
            r.x == self.x,
            r.y == self.z,
            r.z == self.z,
            r.w == self.x,
    {
        vec4((self.x, self.z, self.z, self.x))
    }

    /// Swizzle `xzzy`.
    pub fn xzzy(self) -> (r: vec4)
        ensures
            r.x == self.x,
            r.y == self.z,
            r.z == self.z,
            r.w == self.y,
    {
        vec4((self.x, self.z, self.z, self.y))
    }

    /// Swizzle `xzzz`.
    pub fn xzzz(self) -> (r: vec4)
        ensures
            r.x == self.x,
            r.y == self.z,
            r.z == self.z,
            r.w == self.z,
    {
        vec4((self.x, self.z, self.z, self.z))
    }

    /// Swizzle `xzzw`.
    pub fn xzzw(self) -> (r: vec4)
        ensures
            r.x == self.x,
            r.y == self.z,
            r.z == self.z,
            r.w == self.w,
    {
        vec4((self.x, self.z, self.z, self.w))
    }

    /// Swizzle `xzwx`.
    pub fn xzwx(self) -> (r: vec4)
        ensures
            r.x == self.x,
            r.y == self.z,
            r.z == self.w,
            r.w == self.x,
    {
        vec4((self.x, self.z, self.w, self.x))
    }

    /// Swizzle `xzwy`.
    pub fn xzwy(self) -> (r: vec4)
        ensures
            r.x == self.x,
            r.y == self.z,
            r.z == self.w,
            r.w == self.y,
    {
        vec4((self.x, self.z, self.w, self.y))
    }

    /// Swizzle `xzwz`.
    pub fn xzwz(self) -> (r: vec4)
        ensures
            r.x == self.x,
            r.y == self.z,
            r.z == self.w,
            r.w == self.z,
    {
        vec4((self.x, self.z, self.w, self.z))
    }

    /// Swizzle `xzww`.
    pub fn xzww(self) -> (r: vec4)
        ensures
            r.x == self.x,
            r.y == self.z,
            r.z == self.w,
            r.w == self.w,
    {
        vec4((self.x, self.z, self.w, self.w))
    }

    /// Swizzle `xwxx`.
    pub fn xwxx(self) -> (r: vec4)
        ensures
            r.x == self.x,
            r.y == self.w,
            r.z == self.x,
            r.w == self.x,
    {
        vec4((self.x, self.w, self.x, self.x))
    }

    /// Swizzle `xwxy`.
    pub fn xwxy(self) -> (r: vec4)
        ensures
            r.x == self.x,
            r.y == self.w,
            r.z == self.x,
            r.w == self.y,
    {
        vec4((self.x, self.w, self.x, self.y))
    }

    /// Swizzle `xwxz`.
    pub fn xwxz(self) -> (r: vec4)
        ensures
            r.x == self.x,
            r.y == self.w,
            r.z == self.x,
            r.w == self.z,
    {
        vec4((self.x, self.w, self.x, self.z))
    }

    /// Swizzle `xwxw`.
    pub fn xwxw(self) -> (r: vec4)
        ensures
            r.x == self.x,
            r.y == self.w,
            r.z == self.x,
            r.w == self.w,
    {
        vec4((self.x, self.w, self.x, self.w))
    }

    /// Swizzle `xwyx`.
    pub fn xwyx(self) -> (r: vec4)
        ensures
            r.x == self.x,
            r.y == self.w,
            r.z == self.y,
            r.w == self.x,
    {
        vec4((self.x, self.w, self.y, self.x))
    }

    /// Swizzle `xwyy`.
    pub fn xwyy(self) -> (r: vec4)
        ensures
            r.x == self.x,
            r.y == self.w,
            r.z == self.y,
            r.w == self.y,
    {
        vec4((self.x, self.w, self.y, self.y))
    }

    /// Swizzle `xwyz`.
    pub fn xwyz(self) -> (r: vec4)
        ensures
            r.x == self.x,
            r.y == self.w,
            r.z == self.y,
            r.w == self.z,
    {
        vec4((self.x, self.w, self.y, self.z))
    }

    /// Swizzle `xwyw`.
    pub fn xwyw(self) -> (r: vec4)
        ensures
            r.x == self.x,
            r.y == self.w,
            r.z == self.y,
            r.w == self.w,
    {
        vec4((self.x, self.w, self.y, self.w))
    }

    /// Swizzle `xwzx`.
    pub fn xwzx(self) -> (r: vec4)
        ensures
            r.x == self.x,
            r.y == self.w,
            r.z == self.z,
            r.w == self.x,
    {
        vec4((self.x, self.w, self.z, self.x))
    }

    /// Swizzle `xwzy`.
    pub fn xwzy(self) -> (r: vec4)
        ensures
            r.x == self.x,
            r.y == self.w,
            r.z == self.z,
            r.w == self.y,
    {
        vec4((self.x, self.w, self.z, self.y))
    }

    /// Swizzle `xwzz`.
    pub fn xwzz(self) -> (r: vec4)
        ensures
            r.x == self.x,
            r.y == self.w,
            r.z == self.z,
            r.w == self.z,
    {
        vec4((self.x, self.w, self.z, self.z))
    }

    /// Swizzle `xwzw`.
    pub fn xwzw(self) -> (r: vec4)
        ensures
            r.x == self.x,
            r.y == self.w,
            r.z == self.z,
            r.w == self.w,
    {
        vec4((self.x, self.w, self.z, self.w))
    }

    /// Swizzle `xwwx`.
    pub fn xwwx(self) -> (r: vec4)
        ensures
            r.x == self.x,
            r.y == self.w,
            r.z == self.w,
            r.w == self.x,
    {
        vec4((self.x, self.w, self.w, self.x))
    }

    /// Swizzle `xwwy`.
    pub fn xwwy(self) -> (r: vec4)
        ensures
            r.x == self.x,
            r.y == self.w,
            r.z == self.w,
            r.w == self.y,
    {
        vec4((self.x, self.w, self.w, self.y))
    }

    /// Swizzle `xwwz`.
    pub fn xwwz(self) -> (r: vec4)
        ensures
            r.x == self.x,
            r.y == self.w,
            r.z == self.w,
            r.w == self.z,
    {
        vec4((self.x, self.w, self.w, self.z))
    }

    /// Swizzle `xwww`.
    pub fn xwww(self) -> (r: vec4)
        ensures
            r.x == self.x,
            r.y == self.w,
            r.z == self.w,
            r.w == self.w,
    {
        vec4((self.x, self.w, self.w, self.w))
    }

    /// Swizzle `yxxx`.
    pub fn yxxx(self) -> (r: vec4)
        ensures
            r.x == self.y,
            r.y == self.x,
            r.z == self.x,
            r.w == self.x,
    {
        vec4((self.y, self.x, self.x, self.x))
    }

    /// Swizzle `yxxy`.
    pub fn yxxy(self) -> (r: vec4)
        ensures
            r.x == self.y,
            r.y == self.x,
            r.z == self.x,
            r.w == self.y,
    {
        vec4((self.y, self.x, self.x, self.y))
    }

    /// Swizzle `yxxz`.
    pub fn yxxz(self) -> (r: vec4)
        ensures
            r.x == self.y,
            r.y == self.x,
            r.z == self.x,
            r.w == self.z,
    {
        vec4((self.y, self.x, self.x, self.z))
    }

    /// Swizzle `yxxw`.
    pub fn yxxw(self) -> (r: vec4)
        ensures
            r.x == self.y,
            r.y == self.x,
            r.z == self.x,
            r.w == self.w,
    {
        vec4((self.y, self.x, self.x, self.w))
    }

    /// Swizzle `yxyx`.
    pub fn yxyx(self) -> (r: vec4)
        ensures
            r.x == self.y,
            r.y == self.x,
            r.z == self.y,
            r.w == self.x,
    {
        vec4((self.y, self.x, self.y, self.x))
    }

    /// Swizzle `yxyy`.
    pub fn yxyy(self) -> (r: vec4)
        ensures
            r.x == self.y,
            r.y == self.x,
            r.z == self.y,
            r.w == self.y,
    {
        vec4((self.y, self.x, self.y, self.y))
    }

    /// Swizzle `yxyz`.
    pub fn yxyz(self) -> (r: vec4)
        ensures
            r.x == self.y,
            r.y == self.x,
            r.z == self.y,
            r.w == self.z,
    {
        vec4((self.y, self.x, self.y, self.z))
    }

    /// Swizzle `yxyw`.
    pub fn yxyw(self) -> (r: vec4)
        ensures
            r.x == self.y,
            r.y == self.x,
            r.z == self.y,
            r.w == self.w,
    {
        vec4((self.y, self.x, self.y, self.w))
    }

    /// Swizzle `yxzx`.
    pub fn yxzx(self) -> (r: vec4)
        ensures
            r.x == self.y,
            r.y == self.x,
            r.z == self.z,
            r.w == self.x,
    {
        vec4((self.y, self.x, self.z, self.x))
    }

    /// Swizzle `yxzy`.
    pub fn yxzy(self) -> (r: vec4)
        ensures
            r.x == self.y,
            r.y == self.x,
            r.z == self.z,
            r.w == self.y,
    {
        vec4((self.y, self.x, self.z, self.y))
    }

    /// Swizzle `yxzz`.
    pub fn yxzz(self) -> (r: vec4)
        ensures
            r.x == self.y,
            r.y == self.x,
            r.z == self.z,
            r.w == self.z,
    {
        vec4((self.y, self.x, self.z, self.z))
    }

    /// Swizzle `yxzw`.
    pub fn yxzw(self) -> (r: vec4)
        ensures
            r.x == self.y,
            r.y == self.x,
            r.z == self.z,
            r.w == self.w,
    {
        vec4((self.y, self.x, self.z, self.w))
    }

    /// Swizzle `yxwx`.
    pub fn yxwx(self) -> (r: vec4)
        ensures
            r.x == self.y,
            r.y == self.x,
            r.z == self.w,
            r.w == self.x,
    {
        vec4((self.y, self.x, self.w, self.x))
    }

    /// Swizzle `yxwy`.
    pub fn yxwy(self) -> (r: vec4)
        ensures
            r.x == self.y,
            r.y == self.x,
            r.z == self.w,
            r.w == self.y,
    {
        vec4((self.y, self.x, self.w, self.y))
    }

    /// Swizzle `yxwz`.
    pub fn yxwz(self) -> (r: vec4)
        ensures
            r.x == self.y,
            r.y == self.x,
            r.z == self.w,
            r.w == self.z,
    {
        vec4((self.y, self.x, self.w, self.z))
    }

    /// Swizzle `yxww`.
    pub fn yxww(self) -> (r: vec4)
        ensures
            r.x == self.y,
            r.y == self.x,
            r.z == self.w,
            r.w == self.w,
    {
        vec4((self.y, self.x, self.w, self.w))
    }

    /// Swizzle `yyxx`.
    pub fn yyxx(self) -> (r: vec4)
        ensures
            r.x == self.y,
            r.y == self.y,
            r.z == self.x,
            r.w == self.x,
    {
        vec4((self.y, self.y, self.x, self.x))
    }

    /// Swizzle `yyxy`.
    pub fn yyxy(self) -> (r: vec4)
        ensures
            r.x == self.y,
            r.y == self.y,
            r.z == self.x,
            r.w == self.y,
    {
        vec4((self.y, self.y, self.x, self.y))
    }

    /// Swizzle `yyxz`.
    pub fn yyxz(self) -> (r: vec4)
        ensures
            r.x == self.y,
            r.y == self.y,
            r.z == self.x,
            r.w == self.z,
    {
        vec4((self.y, self.y, self.x, self.z))
    }

    /// Swizzle `yyxw`.
    pub fn yyxw(self) -> (r: vec4)
        ensures
            r.x == self.y,
            r.y == self.y,
            r.z == self.x,
            r.w == self.w,
    {
        vec4((self.y, self.y, self.x, self.w))
    }

    /// Swizzle `yyyx`.
    pub fn yyyx(self) -> (r: vec4)
        ensures
            r.x == self.y,
            r.y == self.y,
            r.z == self.y,
            r.w == self.x,
    {
        vec4((self.y, self.y, self.y, self.x))
    }

    /// Swizzle `yyyy`.
    pub fn yyyy(self) -> (r: vec4)
        ensures
            r.x == self.y,
            r.y == self.y,
            r.z == self.y,
            r.w == self.y,
    {
        vec4((self.y, self.y, self.y, self.y))
    }

    /// Swizzle `yyyz`.
    pub fn yyyz(self) -> (r: vec4)
        ensures
            r.x == self.y,
            r.y == self.y,
            r.z == self.y,
            r.w == self.z,
    {
        vec4((self.y, self.y, self.y, self.z))
    }

    /// Swizzle `yyyw`.
    pub fn yyyw(self) -> (r: vec4)
        ensures
            r.x == self.y,
            r.y == self.y,
            r.z == self.y,
            r.w == self.w,
    {
        vec4((self.y, self.y, self.y, self.w))
    }

    /// Swizzle `yyzx`.
    pub fn yyzx(self) -> (r: vec4)
        ensures
            r.x == self.y,
            r.y == self.y,
            r.z == self.z,
            r.w == self.x,
    {
        vec4((self.y, self.y, self.z, self.x))
    }

    /// Swizzle `yyzy`.
    pub fn yyzy(self) -> (r: vec4)
        ensures
            r.x == self.y,
            r.y == self.y,
            r.z == self.z,
            r.w == self.y,
    {
        vec4((self.y, self.y, self.z, self.y))
    }

    /// Swizzle `yyzz`.
    pub fn yyzz(self) -> (r: vec4)
        ensures
            r.x == self.y,
            r.y == self.y,
            r.z == self.z,
            r.w == self.z,
    {
        vec4((self.y, self.y, self.z, self.z))
    }

    /// Swizzle `yyzw`.
    pub fn yyzw(self) -> (r: vec4)
        ensures
            r.x == self.y,
            r.y == self.y,
            r.z == self.z,
            r.w == self.w,
    {
        vec4((self.y, self.y, self.z, self.w))
    }

    /// Swizzle `yywx`.
    pub fn yywx(self) -> (r: vec4)
        ensures
            r.x == self.y,
            r.y == self.y,
            r.z == self.w,
            r.w == self.x,
    {
        vec4((self.y, self.y, self.w, self.x))
    }

    /// Swizzle `yywy`.
    pub fn yywy(self) -> (r: vec4)
        ensures
            r.x == self.y,
            r.y == self.y,
            r.z == self.w,
            r.w == self.y,
    {
        vec4((self.y, self.y, self.w, self.y))
    }

    /// Swizzle `yywz`.
    pub fn yywz(self) -> (r: vec4)
        ensures
            r.x == self.y,
            r.y == self.y,
            r.z == self.w,
            r.w == self.z,
    {
        vec4((self.y, self.y, self.w, self.z))
    }

    /// Swizzle `yyww`.
    pub fn yyww(self) -> (r: vec4)
        ensures
            r.x == self.y,
            r.y == self.y,
            r.z == self.w,
            r.w == self.w,
    {
        vec4((self.y, self.y, self.w, self.w))
    }

    /// Swizzle `yzxx`.
    pub fn yzxx(self) -> (r: vec4)
        ensures
            r.x == self.y,
            r.y == self.z,
            r.z == self.x,
            r.w == self.x,
    {
        vec4((self.y, self.z, self.x, self.x))
    }

    /// Swizzle `yzxy`.
    pub fn yzxy(self) -> (r: vec4)
        ensures
            r.x == self.y,
            r.y == self.z,
            r.z == self.x,
            r.w == self.y,
    {
        vec4((self.y, self.z, self.x, self.y))
    }

    /// Swizzle `yzxz`.
    pub fn yzxz(self) -> (r: vec4)
        ensures
            r.x == self.y,
            r.y == self.z,
            r.z == self.x,
            r.w == self.z,
    {
        vec4((self.y, self.z, self.x, self.z))
    }

    /// Swizzle `yzxw`.
    pub fn yzxw(self) -> (r: vec4)
        ensures
            r.x == self.y,
            r.y == self.z,
            r.z == self.x,
            r.w == self.w,
    {
        vec4((self.y, self.z, self.x, self.w))
    }

    /// Swizzle `yzyx`.
    pub fn yzyx(self) -> (r: vec4)
        ensures
            r.x == self.y,
            r.y == self.z,
            r.z == self.y,
            r.w == self.x,
    {
        vec4((self.y, self.z, self.y, self.x))
    }

    /// Swizzle `yzyy`.
    pub fn yzyy(self) -> (r: vec4)
        ensures
            r.x == self.y,
            r.y == self.z,
            r.z == self.y,
            r.w == self.y,
    {
        vec4((self.y, self.z, self.y, self.y))
    }

    /// Swizzle `yzyz`.
    pub fn yzyz(self) -> (r: vec4)
        ensures
            r.x == self.y,
            r.y == self.z,
            r.z == self.y,
            r.w == self.z,
    {
        vec4((self.y, self.z, self.y, self.z))
    }

    /// Swizzle `yzyw`.
    pub fn yzyw(self) -> (r: vec4)
        ensures
            r.x == self.y,
            r.y == self.z,
            r.z == self.y,
            r.w == self.w,
    {
        vec4((self.y, self.z, self.y, self.w))
    }

    /// Swizzle `yzzx`.
    pub fn yzzx(self) -> (r: vec4)
        ensures
            r.x == self.y,
            r.y == self.z,
            r.z == self.z,
            r.w == self.x,
    {
        vec4((self.y, self.z, self.z, self.x))
    }

    /// Swizzle `yzzy`.
    pub fn yzzy(self) -> (r: vec4)
        ensures
            r.x == self.y,
            r.y == self.z,
            r.z == self.z,
            r.w == self.y,
    {
        vec4((self.y, self.z, self.z, self.y))
    }

    /// Swizzle `yzzz`.
    pub fn yzzz(self) -> (r: vec4)
        ensures
            r.x == self.y,
            r.y == self.z,
            r.z == self.z,
            r.w == self.z,
    {
        vec4((self.y, self.z, self.z, self.z))
    }

    /// Swizzle `yzzw`.
    pub fn yzzw(self) -> (r: vec4)
        ensures
            r.x == self.y,
            r.y == self.z,
            r.z == self.z,
            r.w == self.w,
    {
        vec4((self.y, self.z, self.z, self.w))
    }

    /// Swizzle `yzwx`.
    pub fn yzwx(self) -> (r: vec4)
        ensures
            r.x == self.y,
            r.y == self.z,
            r.z == self.w,
            r.w == self.x,
    {
        vec4((self.y, self.z, self.w, self.x))
    }

    /// Swizzle `yzwy`.
    pub fn yzwy(self) -> (r: vec4)
        ensures
            r.x == self.y,
            r.y == self.z,
            r.z == self.w,
            r.w == self.y,
    {
        vec4((self.y, self.z, self.w, self.y))
    }

    /// Swizzle `yzwz`.
    pub fn yzwz(self) -> (r: vec4)
        ensures
            r.x == self.y,
            r.y == self.z,
            r.z == self.w,
            r.w == self.z,
    {
        vec4((self.y, self.z, self.w, self.z))
    }

    /// Swizzle `yzww`.
    pub fn yzww(self) -> (r: vec4)
        ensures
            r.x == self.y,
            r.y == self.z,
            r.z == self.w,
            r.w == self.w,
    {
        vec4((self.y, self.z, self.w, self.w))
    }

    /// Swizzle `ywxx`.
    pub fn ywxx(self) -> (r: vec4)
        ensures
            r.x == self.y,
            r.y == self.w,
            r.z == self.x,
            r.w == self.x,
    {
        vec4((self.y, self.w, self.x, self.x))
    }

    /// Swizzle `ywxy`.
    pub fn ywxy(self) -> (r: vec4)
        ensures
            r.x == self.y,
            r.y == self.w,
            r.z == self.x,
            r.w == self.y,
    {
        vec4((self.y, self.w, self.x, self.y))
    }

    /// Swizzle `ywxz`.
    pub fn ywxz(self) -> (r: vec4)
        ensures
            r.x == self.y,
            r.y == self.w,
            r.z == self.x,
            r.w == self.z,
    {
        vec4((self.y, self.w, self.x, self.z))
    }

    /// Swizzle `ywxw`.
    pub fn ywxw(self) -> (r: vec4)
        ensures
            r.x == self.y,
            r.y == self.w,
            r.z == self.x,
            r.w == self.w,
    {
        vec4((self.y, self.w, self.x, self.w))
    }

    /// Swizzle `ywyx`.
    pub fn ywyx(self) -> (r: vec4)
        ensures
            r.x == self.y,
            r.y == self.w,
            r.z == self.y,
            r.w == self.x,
    {
        vec4((self.y, self.w, self.y, self.x))
    }

    /// Swizzle `ywyy`.
    pub fn ywyy(self) -> (r: vec4)
        ensures
            r.x == self.y,
            r.y == self.w,
            r.z == self.y,
            r.w == self.y,
    {
        vec4((self.y, self.w, self.y, self.y))
    }

    /// Swizzle `ywyz`.
    pub fn ywyz(self) -> (r: vec4)
        ensures
            r.x == self.y,
            r.y == self.w,
            r.z == self.y,
            r.w == self.z,
    {
        vec4((self.y, self.w, self.y, self.z))
    }

    /// Swizzle `ywyw`.
    pub fn ywyw(self) -> (r: vec4)
        ensures
            r.x == self.y,
            r.y == self.w,
            r.z == self.y,
            r.w == self.w,
    {
        vec4((self.y, self.w, self.y, self.w))
    }

    /// Swizzle `ywzx`.
    pub fn ywzx(self) -> (r: vec4)
        ensures
            r.x == self.y,
            r.y == self.w,
            r.z == self.z,
            r.w == self.x,
    {
        vec4((self.y, self.w, self.z, self.x))
    }

    /// Swizzle `ywzy`.
    pub fn ywzy(self) -> (r: vec4)
        ensures
            r.x == self.y,
            r.y == self.w,
            r.z == self.z,
            r.w == self.y,
    {
        vec4((self.y, self.w, self.z, self.y))
    }

    /// Swizzle `ywzz`.
    pub fn ywzz(self) -> (r: vec4)
        ensures
            r.x == self.y,
            r.y == self.w,
            r.z == self.z,
            r.w == self.z,
    {
        vec4((self.y, self.w, self.z, self.z))
    }

    /// Swizzle `ywzw`.
    pub fn ywzw(self) -> (r: vec4)
        ensures
            r.x == self.y,
            r.y == self.w,
            r.z == self.z,
            r.w == self.w,
    {
        vec4((self.y, self.w, self.z, self.w))
    }

    /// Swizzle `ywwx`.
    pub fn ywwx(self) -> (r: vec4)
        ensures
            r.x == self.y,
            r.y == self.w,
            r.z == self.w,
            r.w == self.x,
    {
        vec4((self.y, self.w, self.w, self.x))
    }

    /// Swizzle `ywwy`.
    pub fn ywwy(self) -> (r: vec4)
        ensures
            r.x == self.y,
            r.y == self.w,
            r.z == self.w,
            r.w == self.y,
    {
        vec4((self.y, self.w, self.w, self.y))
    }

    /// Swizzle `ywwz`.
    pub fn ywwz(self) -> (r: vec4)
        ensures
            r.x == self.y,
            r.y == self.w,
            r.z == self.w,
            r.w == self.z,
    {
        vec4((self.y, self.w, self.w, self.z))
    }

    /// Swizzle `ywww`.
    pub fn ywww(self) -> (r: vec4)
        ensures
            r.x == self.y,
            r.y == self.w,
            r.z == self.w,
            r.w == self.w,
    {
        vec4((self.y, self.w, self.w, self.w))
    }

    /// Swizzle `zxxx`.
    pub fn zxxx(self) -> (r: vec4)
        ensures
            r.x == self.z,
            r.y == self.x,
            r.z == self.x,
            r.w == self.x,
    {
        vec4((self.z, self.x, self.x, self.x))
    }

    /// Swizzle `zxxy`.
    pub fn zxxy(self) -> (r: vec4)
        ensures
            r.x == self.z,
            r.y == self.x,
            r.z == self.x,
            r.w == self.y,
    {
        vec4((self.z, self.x, self.x, self.y))
    }

    /// Swizzle `zxxz`.
    pub fn zxxz(self) -> (r: vec4)
        ensures
            r.x == self.z,
            r.y == self.x,
            r.z == self.x,
            r.w == self.z,
    {
        vec4((self.z, self.x, self.x, self.z))
    }

    /// Swizzle `zxxw`.
    pub fn zxxw(self) -> (r: vec4)
        ensures
            r.x == self.z,
            r.y == self.x,
            r.z == self.x,
            r.w == self.w,
    {
        vec4((self.z, self.x, self.x, self.w))
    }

    /// Swizzle `zxyx`.
    pub fn zxyx(self) -> (r: vec4)
        ensures
            r.x == self.z,
            r.y == self.x,
            r.z == self.y,
            r.w == self.x,
    {
        vec4((self.z, self.x, self.y, self.x))
    }

    /// Swizzle `zxyy`.
    pub fn zxyy(self) -> (r: vec4)
        ensures
            r.x == self.z,
            r.y == self.x,
            r.z == self.y,
            r.w == self.y,
    {
        vec4((self.z, self.x, self.y, self.y))
    }

    /// Swizzle `zxyz`.
    pub fn zxyz(self) -> (r: vec4)
        ensures
            r.x == self.z,
            r.y == self.x,
            r.z == self.y,
            r.w == self.z,
    {
        vec4((self.z, self.x, self.y, self.z))
    }

    /// Swizzle `zxyw`.
    pub fn zxyw(self) -> (r: vec4)
        ensures
            r.x == self.z,
            r.y == self.x,
            r.z == self.y,
            r.w == self.w,
    {
        vec4((self.z, self.x, self.y, self.w))
    }

    /// Swizzle `zxzx`.
    pub fn zxzx(self) -> (r: vec4)
        ensures
            r.x == self.z,
            r.y == self.x,
            r.z == self.z,
            r.w == self.x,
    {
        vec4((self.z, self.x, self.z, self.x))
    }

    /// Swizzle `zxzy`.
    pub fn zxzy(self) -> (r: vec4)
        ensures
            r.x == self.z,
            r.y == self.x,
            r.z == self.z,
            r.w == self.y,
    {
        vec4((self.z, self.x, self.z, self.y))
    }

    /// Swizzle `zxzz`.
    pub fn zxzz(self) -> (r: vec4)
        ensures
            r.x == self.z,
            r.y == self.x,
            r.z == self.z,
            r.w == self.z,
    {
        vec4((self.z, self.x, self.z, self.z))
    }

    /// Swizzle `zxzw`.
    pub fn zxzw(self) -> (r: vec4)
        ensures
            r.x == self.z,
            r.y == self.x,
            r.z == self.z,
            r.w == self.w,
    {
        vec4((self.z, self.x, self.z, self.w))
    }

    /// Swizzle `zxwx`.
    pub fn zxwx(self) -> (r: vec4)
        ensures
            r.x == self.z,
            r.y == self.x,
            r.z == self.w,
            r.w == self.x,
    {
        vec4((self.z, self.x, self.w, self.x))
    }

    /// Swizzle `zxwy`.
    pub fn zxwy(self) -> (r: vec4)
        ensures
            r.x == self.z,
            r.y == self.x,
            r.z == self.w,
            r.w == self.y,
    {
        vec4((self.z, self.x, self.w, self.y))
    }

    /// Swizzle `zxwz`.
    pub fn zxwz(self) -> (r: vec4)
        ensures
            r.x == self.z,
            r.y == self.x,
            r.z == self.w,
            r.w == self.z,
    {
        vec4((self.z, self.x, self.w, self.z))
    }

    /// Swizzle `zxww`.
    pub fn zxww(self) -> (r: vec4)
        ensures
            r.x == self.z,
            r.y == self.x,
            r.z == self.w,
            r.w == self.w,
    {
        vec4((self.z, self.x, self.w, self.w))
    }

    /// Swizzle `zyxx`.
    pub fn zyxx(self) -> (r: vec4)
        ensures
            r.x == self.z,
            r.y == self.y,
            r.z == self.x,
            r.w == self.x,
    {
        vec4((self.z, self.y, self.x, self.x))
    }

    /// Swizzle `zyxy`.
    pub fn zyxy(self) -> (r: vec4)
        ensures
            r.x == self.z,
            r.y == self.y,
            r.z == self.x,
            r.w == self.y,
    {
        vec4((self.z, self.y, self.x, self.y))
    }

    /// Swizzle `zyxz`.
    pub fn zyxz(self) -> (r: vec4)
        ensures
            r.x == self.z,
            r.y == self.y,
            r.z == self.x,
            r.w == self.z,
    {
        vec4((self.z, self.y, self.x, self.z))
    }

    /// Swizzle `zyxw`.
    pub fn zyxw(self) -> (r: vec4)
        ensures
            r.x == self.z,
            r.y == self.y,
            r.z == self.x,
            r.w == self.w,
    {
        vec4((self.z, self.y, self.x, self.w))
    }

    /// Swizzle `zyyx`.
    pub fn zyyx(self) -> (r: vec4)
        ensures
            r.x == self.z,
            r.y == self.y,
            r.z == self.y,
            r.w == self.x,
    {
        vec4((self.z, self.y, self.y, self.x))
    }

    /// Swizzle `zyyy`.
    pub fn zyyy(self) -> (r: vec4)
        ensures
            r.x == self.z,
            r.y == self.y,
            r.z == self.y,
            r.w == self.y,
    {
        vec4((self.z, self.y, self.y, self.y))
    }

    /// Swizzle `zyyz`.
    pub fn zyyz(self) -> (r: vec4)
        ensures
            r.x == self.z,
            r.y == self.y,
            r.z == self.y,
            r.w == self.z,
    {
        vec4((self.z, self.y, self.y, self.z))
    }

    /// Swizzle `zyyw`.
    pub fn zyyw(self) -> (r: vec4)
        ensures
            r.x == self.z,
            r.y == self.y,
            r.z == self.y,
            r.w == self.w,
    {
        vec4((self.z, self.y, self.y, self.w))
    }

    /// Swizzle `zyzx`.
    pub fn zyzx(self) -> (r: vec4)
        ensures
            r.x == self.z,
            r.y == self.y,
            r.z == self.z,
            r.w == self.x,
    {
        vec4((self.z, self.y, self.z, self.x))
    }

    /// Swizzle `zyzy`.
    pub fn zyzy(self) -> (r: vec4)
        ensures
            r.x == self.z,
            r.y == self.y,
            r.z == self.z,
            r.w == self.y,
    {
        vec4((self.z, self.y, self.z, self.y))
    }

    /// Swizzle `zyzz`.
    pub fn zyzz(self) -> (r: vec4)
        ensures
            r.x == self.z,
            r.y == self.y,
            r.z == self.z,
            r.w == self.z,
    {
        vec4((self.z, self.y, self.z, self.z))
    }

    /// Swizzle `zyzw`.
    pub fn zyzw(self) -> (r: vec4)
        ensures
            r.x == self.z,
            r.y == self.y,
            r.z == self.z,
            r.w == self.w,
    {
        vec4((self.z, self.y, self.z, self.w))
    }

    /// Swizzle `zywx`.
    pub fn zywx(self) -> (r: vec4)
        ensures
            r.x == self.z,
            r.y == self.y,
            r.z == self.w,
            r.w == self.x,
    {
        vec4((self.z, self.y, self.w, self.x))
    }

    /// Swizzle `zywy`.
    pub fn zywy(self) -> (r: vec4)
        ensures
            r.x == self.z,
            r.y == self.y,
            r.z == self.w,
            r.w == self.y,
    {
        vec4((self.z, self.y, self.w, self.y))
    }

    /// Swizzle `zywz`.
    pub fn zywz(self) -> (r: vec4)
        ensures
            r.x == self.z,
            r.y == self.y,
            r.z == self.w,
            r.w == self.z,
    {
        vec4((self.z, self.y, self.w, self.z))
    }

    /// Swizzle `zyww`.
    pub fn zyww(self) -> (r: vec4)
        ensures
            r.x == self.z,
            r.y == self.y,
            r.z == self.w,
            r.w == self.w,
    {
        vec4((self.z, self.y, self.w, self.w))
    }

    /// Swizzle `zzxx`.
    pub fn zzxx(self) -> (r: vec4)
        ensures
            r.x == self.z,
            r.y == self.z,
            r.z == self.x,
            r.w == self.x,
    {
        vec4((self.z, self.z, self.x, self.x))
    }

    /// Swizzle `zzxy`.
    pub fn zzxy(self) -> (r: vec4)
        ensures
            r.x == self.z,
            r.y == self.z,
            r.z == self.x,
            r.w == self.y,
    {
        vec4((self.z, self.z, self.x, self.y))
    }

    /// Swizzle `zzxz`.
    pub fn zzxz(self) -> (r: vec4)
        ensures
            r.x == self.z,
            r.y == self.z,
            r.z == self.x,
            r.w == self.z,
    {
        vec4((self.z, self.z, self.x, self.z))
    }

    /// Swizzle `zzxw`.
    pub fn zzxw(self) -> (r: vec4)
        ensures
            r.x == self.z,
            r.y == self.z,
            r.z == self.x,
            r.w == self.w,
    {
        vec4((self.z, self.z, self.x, self.w))
    }

    /// Swizzle `zzyx`.
    pub fn zzyx(self) -> (r: vec4)
        ensures
            r.x == self.z,
            r.y == self.z,
            r.z == self.y,
            r.w == self.x,
    {
        vec4((self.z, self.z, self.y, self.x))
    }

    /// Swizzle `zzyy`.
    pub fn zzyy(self) -> (r: vec4)
        ensures
            r.x == self.z,
            r.y == self.z,
            r.z == self.y,
            r.w == self.y,
    {
        vec4((self.z, self.z, self.y, self.y))
    }

    /// Swizzle `zzyz`.
    pub fn zzyz(self) -> (r: vec4)
        ensures
            r.x == self.z,
            r.y == self.z,
            r.z == self.y,
            r.w == self.z,
    {
        vec4((self.z, self.z, self.y, self.z))
    }

    /// Swizzle `zzyw`.
    pub fn zzyw(self) -> (r: vec4)
        ensures
            r.x == self.z,
            r.y == self.z,
            r.z == self.y,
            r.w == self.w,
    {
        vec4((self.z, self.z, self.y, self.w))
    }

    /// Swizzle `zzzx`.
    pub fn zzzx(self) -> (r: vec4)
        ensures
            r.x == self.z,
            r.y == self.z,
            r.z == self.z,
            r.w == self.x,
    {
        vec4((self.z, self.z, self.z, self.x))
    }

    /// Swizzle `zzzy`.
    pub fn zzzy(self) -> (r: vec4)
        ensures
            r.x == self.z,
            r.y == self.z,
            r.z == self.z,
            r.w == self.y,
    {
        vec4((self.z, self.z, self.z, self.y))
    }

    /// Swizzle `zzzz`.
    pub fn zzzz(self) -> (r: vec4)
        ensures
            r.x == self.z,
            r.y == self.z,
            r.z == self.z,
            r.w == self.z,
    {
        vec4((self.z, self.z, self.z, self.z))
    }

    /// Swizzle `zzzw`.
    pub fn zzzw(self) -> (r: vec4)
        ensures
            r.x == self.z,
            r.y == self.z,
            r.z == self.z,
            r.w == self.w,
    {
        vec4((self.z, self.z, self.z, self.w))
    }

    /// Swizzle `zzwx`.
    pub fn zzwx(self) -> (r: vec4)
        ensures
            r.x == self.z,
            r.y == self.z,
            r.z == self.w,
            r.w == self.x,
    {
        vec4((self.z, self.z, self.w, self.x))
    }

    /// Swizzle `zzwy`.
    pub fn zzwy(self) -> (r: vec4)
        ensures
            r.x == self.z,
            r.y == self.z,
            r.z == self.w,
            r.w == self.y,
    {
        vec4((self.z, self.z, self.w, self.y))
    }

    /// Swizzle `zzwz`.
    pub fn zzwz(self) -> (r: vec4)
        ensures
            r.x == self.z,
            r.y == self.z,
            r.z == self.w,
            r.w == self.z,
    {
        vec4((self.z, self.z, self.w, self.z))
    }

    /// Swizzle `zzww`.
    pub fn zzww(self) -> (r: vec4)
        ensures
            r.x == self.z,
            r.y == self.z,
            r.z == self.w,
            r.w == self.w,
    {
        vec4((self.z, self.z, self.w, self.w))
    }

    /// Swizzle `zwxx`.
    pub fn zwxx(self) -> (r: vec4)
        ensures
            r.x == self.z,
            r.y == self.w,
            r.z == self.x,
            r.w == self.x,
    {
        vec4((self.z, self.w, self.x, self.x))
    }

    /// Swizzle `zwxy`.
    pub fn zwxy(self) -> (r: vec4)
        ensures
            r.x == self.z,
            r.y == self.w,
            r.z == self.x,
            r.w == self.y,
    {
        vec4((self.z, self.w, self.x, self.y))
    }

    /// Swizzle `zwxz`.
    pub fn zwxz(self) -> (r: vec4)
        ensures
            r.x == self.z,
            r.y == self.w,
            r.z == self.x,
            r.w == self.z,
    {
        vec4((self.z, self.w, self.x, self.z))
    }

    /// Swizzle `zwxw`.
    pub fn zwxw(self) -> (r: vec4)
        ensures
            r.x == self.z,
            r.y == self.w,
            r.z == self.x,
            r.w == self.w,
    {
        vec4((self.z, self.w, self.x, self.w))
    }

    /// Swizzle `zwyx`.
    pub fn zwyx(self) -> (r: vec4)
        ensures
            r.x == self.z,
            r.y == self.w,
            r.z == self.y,
            r.w == self.x,
    {
        vec4((self.z, self.w, self.y, self.x))
    }

    /// Swizzle `zwyy`.
    pub fn zwyy(self) -> (r: vec4)
        ensures
            r.x == self.z,
            r.y == self.w,
            r.z == self.y,
            r.w == self.y,
    {
        vec4((self.z, self.w, self.y, self.y))
    }

    /// Swizzle `zwyz`.
    pub fn zwyz(self) -> (r: vec4)
        ensures
            r.x == self.z,
            r.y == self.w,
            r.z == self.y,
            r.w == self.z,
    {
        vec4((self.z, self.w, self.y, self.z))
    }

    /// Swizzle `zwyw`.
    pub fn zwyw(self) -> (r: vec4)
        ensures
            r.x == self.z,
            r.y == self.w,
            r.z == self.y,
            r.w == self.w,
    {
        vec4((self.z, self.w, self.y, self.w))
    }

    /// Swizzle `zwzx`.
    pub fn zwzx(self) -> (r: vec4)
        ensures
            r.x == self.z,
            r.y == self.w,
            r.z == self.z,
            r.w == self.x,
    {
        vec4((self.z, self.w, self.z, self.x))
    }

    /// Swizzle `zwzy`.
    pub fn zwzy(self) -> (r: vec4)
        ensures
            r.x == self.z,
            r.y == self.w,
            r.z == self.z,
            r.w == self.y,
    {
        vec4((self.z, self.w, self.z, self.y))
    }

    /// Swizzle `zwzz`.
    pub fn zwzz(self) -> (r: vec4)
        ensures
            r.x == self.z,
            r.y == self.w,
            r.z == self.z,
            r.w == self.z,
    {
        vec4((self.z, self.w, self.z, self.z))
    }

    /// Swizzle `zwzw`.
    pub fn zwzw(self) -> (r: vec4)
        ensures
            r.x == self.z,
            r.y == self.w,
            r.z == self.z,
            r.w == self.w,
    {
        vec4((self.z, self.w, self.z, self.w))
    }

    /// Swizzle `zwwx`.
    pub fn zwwx(self) -> (r: vec4)
        ensures
            r.x == self.z,
            r.y == self.w,
            r.z == self.w,
            r.w == self.x,
    {
        vec4((self.z, self.w, self.w, self.x))
    }

    /// Swizzle `zwwy`.
    pub fn zwwy(self) -> (r: vec4)
        ensures
            r.x == self.z,
            r.y == self.w,
            r.z == self.w,
            r.w == self.y,
    {
        vec4((self.z, self.w, self.w, self.y))
    }

    /// Swizzle `zwwz`.
    pub fn zwwz(self) -> (r: vec4)
        ensures
            r.x == self.z,
            r.y == self.w,
            r.z == self.w,
            r.w == self.z,
    {
        vec4((self.z, self.w, self.w, self.z))
    }

    /// Swizzle `zwww`.
    pub fn zwww(self) -> (r: vec4)
        ensures
            r.x == self.z,
            r.y == self.w,
            r.z == self.w,
            r.w == self.w,
    {
        vec4((self.z, self.w, self.w, self.w))
    }

    /// Swizzle `wxxx`.
    pub fn wxxx(self) -> (r: vec4)
        ensures
            r.x == self.w,
            r.y == self.x,
            r.z == self.x,
            r.w == self.x,
    {
        vec4((self.w, self.x, self.x, self.x))
    }

    /// Swizzle `wxxy`.
    pub fn wxxy(self) -> (r: vec4)
        ensures
            r.x == self.w,
            r.y == self.x,
            r.z == self.x,
            r.w == self.y,
    {
        vec4((self.w, self.x, self.x, self.y))
    }

    /// Swizzle `wxxz`.
    pub fn wxxz(self) -> (r: vec4)
        ensures
            r.x == self.w,
            r.y == self.x,
            r.z == self.x,
            r.w == self.z,
    {
        vec4((self.w, self.x, self.x, self.z))
    }

    /// Swizzle `wxxw`.
    pub fn wxxw(self) -> (r: vec4)
        ensures
            r.x == self.w,
            r.y == self.x,
            r.z == self.x,
            r.w == self.w,
    {
        vec4((self.w, self.x, self.x, self.w))
    }

    /// Swizzle `wxyx`.
    pub fn wxyx(self) -> (r: vec4)
        ensures
            r.x == self.w,
            r.y == self.x,
            r.z == self.y,
            r.w == self.x,
    {
        vec4((self.w, self.x, self.y, self.x))
    }

    /// Swizzle `wxyy`.
    pub fn wxyy(self) -> (r: vec4)
        ensures
            r.x == self.w,
            r.y == self.x,
            r.z == self.y,
            r.w == self.y,
    {
        vec4((self.w, self.x, self.y, self.y))
    }

    /// Swizzle `wxyz`.
    pub fn wxyz(self) -> (r: vec4)
        ensures
            r.x == self.w,
            r.y == self.x,
            r.z == self.y,
            r.w == self.z,
    {
        vec4((self.w, self.x, self.y, self.z))
    }

    /// Swizzle `wxyw`.
    pub fn wxyw(self) -> (r: vec4)
        ensures
            r.x == self.w,
            r.y == self.x,
            r.z == self.y,
            r.w == self.w,
    {
        vec4((self.w, self.x, self.y, self.w))
    }

    /// Swizzle `wxzx`.
    pub fn wxzx(self) -> (r: vec4)
        ensures
            r.x == self.w,
            r.y == self.x,
            r.z == self.z,
            r.w == self.x,
    {
        vec4((self.w, self.x, self.z, self.x))
    }

    /// Swizzle `wxzy`.
    pub fn wxzy(self) -> (r: vec4)
        ensures
            r.x == self.w,
            r.y == self.x,
            r.z == self.z,
            r.w == self.y,
    {
        vec4((self.w, self.x, self.z, self.y))
    }

    /// Swizzle `wxzz`.
    pub fn wxzz(self) -> (r: vec4)
        ensures
            r.x == self.w,
            r.y == self.x,
            r.z == self.z,
            r.w == self.z,
    {
        vec4((self.w, self.x, self.z, self.z))
    }

    /// Swizzle `wxzw`.
    pub fn wxzw(self) -> (r: vec4)
        ensures
            r.x == self.w,
            r.y == self.x,
            r.z == self.z,
            r.w == self.w,
    {
        vec4((self.w, self.x, self.z, self.w))
    }

    /// Swizzle `wxwx`.
    pub fn wxwx(self) -> (r: vec4)
        ensures
            r.x == self.w,
            r.y == self.x,
            r.z == self.w,
            r.w == self.x,
    {
        vec4((self.w, self.x, self.w, self.x))
    }

    /// Swizzle `wxwy`.
    pub fn wxwy(self) -> (r: vec4)
        ensures
            r.x == self.w,
            r.y == self.x,
            r.z == self.w,
            r.w == self.y,
    {
        vec4((self.w, self.x, self.w, self.y))
    }

    /// Swizzle `wxwz`.
    pub fn wxwz(self) -> (r: vec4)
        ensures
            r.x == self.w,
            r.y == self.x,
            r.z == self.w,
            r.w == self.z,
    {
        vec4((self.w, self.x, self.w, self.z))
    }

    /// Swizzle `wxww`.
    pub fn wxww(self) -> (r: vec4)
        ensures
            r.x == self.w,
            r.y == self.x,
            r.z == self.w,
            r.w == self.w,
    {
        vec4((self.w, self.x, self.w, self.w))
    }

    /// Swizzle `wyxx`.
    pub fn wyxx(self) -> (r: vec4)
        ensures
            r.x == self.w,
            r.y == self.y,
            r.z == self.x,
            r.w == self.x,
    {
        vec4((self.w, self.y, self.x, self.x))
    }

    /// Swizzle `wyxy`.
    pub fn wyxy(self) -> (r: vec4)
        ensures
            r.x == self.w,
            r.y == self.y,
            r.z == self.x,
            r.w == self.y,
    {
        vec4((self.w, self.y, self.x, self.y))
    }

    /// Swizzle `wyxz`.
    pub fn wyxz(self) -> (r: vec4)
        ensures
            r.x == self.w,
            r.y == self.y,
            r.z == self.x,
            r.w == self.z,
    {
        vec4((self.w, self.y, self.x, self.z))
    }

    /// Swizzle `wyxw`.
    pub fn wyxw(self) -> (r: vec4)
        ensures
            r.x == self.w,
            r.y == self.y,
            r.z == self.x,
            r.w == self.w,
    {
        vec4((self.w, self.y, self.x, self.w))
    }

    /// Swizzle `wyyx`.
    pub fn wyyx(self) -> (r: vec4)
        ensures
            r.x == self.w,
            r.y == self.y,
            r.z == self.y,
            r.w == self.x,
    {
        vec4((self.w, self.y, self.y, self.x))
    }

    /// Swizzle `wyyy`.
    pub fn wyyy(self) -> (r: vec4)
        ensures
            r.x == self.w,
            r.y == self.y,
            r.z == self.y,
            r.w == self.y,
    {
        vec4((self.w, self.y, self.y, self.y))
    }

    /// Swizzle `wyyz`.
    pub fn wyyz(self) -> (r: vec4)
        ensures
            r.x == self.w,
            r.y == self.y,
            r.z == self.y,
            r.w == self.z,
    {
        vec4((self.w, self.y, self.y, self.z))
    }

    /// Swizzle `wyyw`.
    pub fn wyyw(self) -> (r: vec4)
        ensures
            r.x == self.w,
            r.y == self.y,
            r.z == self.y,
            r.w == self.w,
    {
        vec4((self.w, self.y, self.y, self.w))
    }

    /// Swizzle `wyzx`.
    pub fn wyzx(self) -> (r: vec4)
        ensures
            r.x == self.w,
            r.y == self.y,
            r.z == self.z,
            r.w == self.x,
    {
        vec4((self.w, self.y, self.z, self.x))
    }

    /// Swizzle `wyzy`.
    pub fn wyzy(self) -> (r: vec4)
        ensures
            r.x == self.w,
            r.y == self.y,
            r.z == self.z,
            r.w == self.y,
    {
        vec4((self.w, self.y, self.z, self.y))
    }

    /// Swizzle `wyzz`.
    pub fn wyzz(self) -> (r: vec4)
        ensures
            r.x == self.w,
            r.y == self.y,
            r.z == self.z,
            r.w == self.z,
    {
        vec4((self.w, self.y, self.z, self.z))
    }

    /// Swizzle `wyzw`.
    pub fn wyzw(self) -> (r: vec4)
        ensures
            r.x == self.w,
            r.y == self.y,
            r.z == self.z,
            r.w == self.w,
    {
        vec4((self.w, self.y, self.z, self.w))
    }

    /// Swizzle `wywx`.
    pub fn wywx(self) -> (r: vec4)
        ensures
            r.x == self.w,
            r.y == self.y,
            r.z == self.w,
            r.w == self.x,
    {
        vec4((self.w, self.y, self.w, self.x))
    }

    /// Swizzle `wywy`.
    pub fn wywy(self) -> (r: vec4)
        ensures
            r.x == self.w,
            r.y == self.y,
            r.z == self.w,
            r.w == self.y,
    {
        vec4((self.w, self.y, self.w, self.y))
    }

    /// Swizzle `wywz`.
    pub fn wywz(self) -> (r: vec4)
        ensures
            r.x == self.w,
            r.y == self.y,
            r.z == self.w,
            r.w == self.z,
    {
        vec4((self.w, self.y, self.w, self.z))
    }

    /// Swizzle `wyww`.
    pub fn wyww(self) -> (r: vec4)
        ensures
            r.x == self.w,
            r.y == self.y,
            r.z == self.w,
            r.w == self.w,
    {
        vec4((self.w, self.y, self.w, self.w))
    }

    /// Swizzle `wzxx`.
    pub fn wzxx(self) -> (r: vec4)
        ensures
            r.x == self.w,
            r.y == self.z,
            r.z == self.x,
            r.w == self.x,
    {
        vec4((self.w, self.z, self.x, self.x))
    }

    /// Swizzle `wzxy`.
    pub fn wzxy(self) -> (r: vec4)
        ensures
            r.x == self.w,
            r.y == self.z,
            r.z == self.x,
            r.w == self.y,
    {
        vec4((self.w, self.z, self.x, self.y))
    }

    /// Swizzle `wzxz`.
    pub fn wzxz(self) -> (r: vec4)
        ensures
            r.x == self.w,
            r.y == self.z,
            r.z == self.x,
            r.w == self.z,
    {
        vec4((self.w, self.z, self.x, self.z))
    }

    /// Swizzle `wzxw`.
    pub fn wzxw(self) -> (r: vec4)
        ensures
            r.x == self.w,
            r.y == self.z,
            r.z == self.x,
            r.w == self.w,
    {
        vec4((self.w, self.z, self.x, self.w))
    }

    /// Swizzle `wzyx`.
    pub fn wzyx(self) -> (r: vec4)
        ensures
            r.x == self.w,
            r.y == self.z,
            r.z == self.y,
            r.w == self.x,
    {
        vec4((self.w, self.z, self.y, self.x))
    }

    /// Swizzle `wzyy`.
    pub fn wzyy(self) -> (r: vec4)
        ensures
            r.x == self.w,
            r.y == self.z,
            r.z == self.y,
            r.w == self.y,
    {
        vec4((self.w, self.z, self.y, self.y))
    }

    /// Swizzle `wzyz`.
    pub fn wzyz(self) -> (r: vec4)
        ensures
            r.x == self.w,
            r.y == self.z,
            r.z == self.y,
            r.w == self.z,
    {
        vec4((self.w, self.z, self.y, self.z))
    }

    /// Swizzle `wzyw`.
    pub fn wzyw(self) -> (r: vec4)
        ensures
            r.x == self.w,
            r.y == self.z,
            r.z == self.y,
            r.w == self.w,
    {
        vec4((self.w, self.z, self.y, self.w))
    }

    /// Swizzle `wzzx`.
    pub fn wzzx(self) -> (r: vec4)
        ensures
            r.x == self.w,
            r.y == self.z,
            r.z == self.z,
            r.w == self.x,
    {
        vec4((self.w, self.z, self.z, self.x))
    }

    /// Swizzle `wzzy`.
    pub fn wzzy(self) -> (r: vec4)
        ensures
            r.x == self.w,
            r.y == self.z,
            r.z == self.z,
            r.w == self.y,
    {
        vec4((self.w, self.z, self.z, self.y))
    }

    /// Swizzle `wzzz`.
    pub fn wzzz(self) -> (r: vec4)
        ensures
            r.x == self.w,
            r.y == self.z,
            r.z == self.z,
            r.w == self.z,
    {
        vec4((self.w, self.z, self.z, self.z))
    }

    /// Swizzle `wzzw`.
    pub fn wzzw(self) -> (r: vec4)
        ensures
            r.x == self.w,
            r.y == self.z,
            r.z == self.z,
            r.w == self.w,
    {
        vec4((self.w, self.z, self.z, self.w))
    }

    /// Swizzle `wzwx`.
    pub fn wzwx(self) -> (r: vec4)
        ensures
            r.x == self.w,
            r.y == self.z,
            r.z == self.w,
            r.w == self.x,
    {
        vec4((self.w, self.z, self.w, self.x))
    }

    /// Swizzle `wzwy`.
    pub fn wzwy(self) -> (r: vec4)
        ensures
            r.x == self.w,
            r.y == self.z,
            r.z == self.w,
            r.w == self.y,
    {
        vec4((self.w, self.z, self.w, self.y))
    }

    /// Swizzle `wzwz`.
    pub fn wzwz(self) -> (r: vec4)
        ensures
            r.x == self.w,
            r.y == self.z,
            r.z == self.w,
            r.w == self.z,
    {
        vec4((self.w, self.z, self.w, self.z))
    }

    /// Swizzle `wzww`.
    pub fn wzww(self) -> (r: vec4)
        ensures
            r.x == self.w,
            r.y == self.z,
            r.z == self.w,
            r.w == self.w,
    {
        vec4((self.w, self.z, self.w, self.w))
    }

    /// Swizzle `wwxx`.
    pub fn wwxx(self) -> (r: vec4)
        ensures
            r.x == self.w,
            r.y == self.w,
            r.z == self.x,
            r.w == self.x,
    {
        vec4((self.w, self.w, self.x, self.x))
    }

    /// Swizzle `wwxy`.
    pub fn wwxy(self) -> (r: vec4)
        ensures
            r.x == self.w,
            r.y == self.w,
            r.z == self.x,
            r.w == self.y,
    {
        vec4((self.w, self.w, self.x, self.y))
    }

    /// Swizzle `wwxz`.
    pub fn wwxz(self) -> (r: vec4)
        ensures
            r.x == self.w,
            r.y == self.w,
            r.z == self.x,
            r.w == self.z,
    {
        vec4((self.w, self.w, self.x, self.z))
    }

    /// Swizzle `wwxw`.
    pub fn wwxw(self) -> (r: vec4)
        ensures
            r.x == self.w,
            r.y == self.w,
            r.z == self.x,
            r.w == self.w,
    {
        vec4((self.w, self.w, self.x, self.w))
    }

    /// Swizzle `wwyx`.
    pub fn wwyx(self) -> (r: vec4)
        ensures
            r.x == self.w,
            r.y == self.w,
            r.z == self.y,
            r.w == self.x,
    {
        vec4((self.w, self.w, self.y, self.x))
    }

    /// Swizzle `wwyy`.
    pub fn wwyy(self) -> (r: vec4)
        ensures
            r.x == self.w,
            r.y == self.w,
            r.z == self.y,
            r.w == self.y,
    {
        vec4((self.w, self.w, self.y, self.y))
    }

    /// Swizzle `wwyz`.
    pub fn wwyz(self) -> (r: vec4)
        ensures
            r.x == self.w,
            r.y == self.w,
            r.z == self.y,
            r.w == self.z,
    {
        vec4((self.w, self.w, self.y, self.z))
    }

    /// Swizzle `wwyw`.
    pub fn wwyw(self) -> (r: vec4)
        ensures
            r.x == self.w,
            r.y == self.w,
            r.z == self.y,
            r.w == self.w,
    {
        vec4((self.w, self.w, self.y, self.w))
    }

    /// Swizzle `wwzx`.
    pub fn wwzx(self) -> (r: vec4)
        ensures
            r.x == self.w,
            r.y == self.w,
            r.z == self.z,
            r.w == self.x,
    {
        vec4((self.w, self.w, self.z, self.x))
    }

    /// Swizzle `wwzy`.
    pub fn wwzy(self) -> (r: vec4)
        ensures
            r.x == self.w,
            r.y == self.w,
            r.z == self.z,
            r.w == self.y,
    {
        vec4((self.w, self.w, self.z, self.y))
    }

    /// Swizzle `wwzz`.
    pub fn wwzz(self) -> (r: vec4)
        ensures
            r.x == self.w,
            r.y == self.w,
            r.z == self.z,
            r.w == self.z,
    {
        vec4((self.w, self.w, self.z, self.z))
    }

    /// Swizzle `wwzw`.
    pub fn wwzw(self) -> (r: vec4)
        ensures
            r.x == self.w,
            r.y == self.w,
            r.z == self.z,
            r.w == self.w,
    {
        vec4((self.w, self.w, self.z, self.w))
    }

    /// Swizzle `wwwx`.
    pub fn wwwx(self) -> (r: vec4)
        ensures
            r.x == self.w,
            r.y == self.w,
            r.z == self.w,
            r.w == self.x,
    {
        vec4((self.w, self.w, self.w, self.x))
    }

    /// Swizzle `wwwy`.
    pub fn wwwy(self) -> (r: vec4)
        ensures
            r.x == self.w,
            r.y == self.w,
            r.z == self.w,
            r.w == self.y,
    {
        vec4((self.w, self.w, self.w, self.y))
    }

    /// Swizzle `wwwz`.
    pub fn wwwz(self) -> (r: vec4)
        ensures
            r.x == self.w,
            r.y == self.w,
            r.z == self.w,
            r.w == self.z,
    {
        vec4((self.w, self.w, self.w, self.z))
    }

    /// Swizzle `wwww`.
    pub fn wwww(self) -> (r: vec4)
        ensures
            r.x == self.w,
            r.y == self.w,
            r.z == self.w,
            r.w == self.w,
    {
        vec4((self.w, self.w, self.w, self.w))
    }
}

} // verus!
