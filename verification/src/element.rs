//! The closed set of numeric element types that the sentinel primitives work
//! over: every built-in fixed-width integer, seen through one trait.

use vstd::prelude::*;

verus! {

/// A fixed-width machine integer, viewed as its mathematical value.
///
/// The sentinel primitives only ever need to compare two elements and to name
/// the smallest and largest representable values (the sentinels of the two
/// update policies), so that is all the trait asks for.
pub trait Element: Copy + Sized {
    /// The mathematical value of this element.
    spec fn as_int(self) -> int;

    /// The smallest representable value of the type.
    spec fn min_int() -> int;

    /// The largest representable value of the type.
    spec fn max_int() -> int;

    /// Every element lies between the two extremes.
    proof fn lemma_in_bounds(self)
        ensures
            Self::min_int() <= self.as_int() <= Self::max_int(),
    ;

    /// Two elements with the same mathematical value are the same element.
    proof fn lemma_as_int_injective(a: Self, b: Self)
        ensures
            a.as_int() == b.as_int() ==> a == b,
    ;

    /// Equality test, decided by the mathematical values.
    fn el_eq(self, other: Self) -> (r: bool)
        ensures
            r <==> self.as_int() == other.as_int(),
    ;

    /// Strict order test, decided by the mathematical values.
    fn el_lt(self, other: Self) -> (r: bool)
        ensures
            r <==> self.as_int() < other.as_int(),
    ;

    /// The smallest representable value.
    fn min_value() -> (r: Self)
        ensures
            r.as_int() == Self::min_int(),
    ;

    /// The largest representable value.
    fn max_value() -> (r: Self)
        ensures
            r.as_int() == Self::max_int(),
    ;
}

impl Element for u32 {
    open spec fn as_int(self) -> int {
        self as int
    }

    open spec fn min_int() -> int {
        u32::MIN as int
    }

    open spec fn max_int() -> int {
        u32::MAX as int
    }

    proof fn lemma_in_bounds(self) {
    }

    proof fn lemma_as_int_injective(a: Self, b: Self) {
    }

    fn el_eq(self, other: Self) -> bool {
        self == other
    }

    fn el_lt(self, other: Self) -> bool {
        self < other
    }

    fn min_value() -> Self {
        u32::MIN
    }

    fn max_value() -> Self {
        u32::MAX
    }
}

impl Element for u8 {
    open spec fn as_int(self) -> int {
        self as int
    }

    open spec fn min_int() -> int {
        u8::MIN as int
    }

    open spec fn max_int() -> int {
        u8::MAX as int
    }

    proof fn lemma_in_bounds(self) {
    }

    proof fn lemma_as_int_injective(a: Self, b: Self) {
    }

    fn el_eq(self, other: Self) -> bool {
        self == other
    }

    fn el_lt(self, other: Self) -> bool {
        self < other
    }

    fn min_value() -> Self {
        u8::MIN
    }

    fn max_value() -> Self {
        u8::MAX
    }
}

impl Element for u16 {
    open spec fn as_int(self) -> int {
        self as int
    }

    open spec fn min_int() -> int {
        u16::MIN as int
    }

    open spec fn max_int() -> int {
        u16::MAX as int
    }

    proof fn lemma_in_bounds(self) {
    }

    proof fn lemma_as_int_injective(a: Self, b: Self) {
    }

    fn el_eq(self, other: Self) -> bool {
        self == other
    }

    fn el_lt(self, other: Self) -> bool {
        self < other
    }

    fn min_value() -> Self {
        u16::MIN
    }

    fn max_value() -> Self {
        u16::MAX
    }
}

impl Element for u64 {
    open spec fn as_int(self) -> int {
        self as int
    }

    open spec fn min_int() -> int {
        u64::MIN as int
    }

    open spec fn max_int() -> int {
        u64::MAX as int
    }

    proof fn lemma_in_bounds(self) {
    }

    proof fn lemma_as_int_injective(a: Self, b: Self) {
    }

    fn el_eq(self, other: Self) -> bool {
        self == other
    }

    fn el_lt(self, other: Self) -> bool {
        self < other
    }

    fn min_value() -> Self {
        u64::MIN
    }

    fn max_value() -> Self {
        u64::MAX
    }
}

impl Element for u128 {
    open spec fn as_int(self) -> int {
        self as int
    }

    open spec fn min_int() -> int {
        u128::MIN as int
    }

    open spec fn max_int() -> int {
        u128::MAX as int
    }

    proof fn lemma_in_bounds(self) {
    }

    proof fn lemma_as_int_injective(a: Self, b: Self) {
    }

    fn el_eq(self, other: Self) -> bool {
        self == other
    }

    fn el_lt(self, other: Self) -> bool {
        self < other
    }

    fn min_value() -> Self {
        u128::MIN
    }

    fn max_value() -> Self {
        u128::MAX
    }
}

impl Element for usize {
    open spec fn as_int(self) -> int {
        self as int
    }

    open spec fn min_int() -> int {
        usize::MIN as int
    }

    open spec fn max_int() -> int {
        usize::MAX as int
    }

    proof fn lemma_in_bounds(self) {
    }

    proof fn lemma_as_int_injective(a: Self, b: Self) {
    }

    fn el_eq(self, other: Self) -> bool {
        self == other
    }

    fn el_lt(self, other: Self) -> bool {
        self < other
    }

    fn min_value() -> Self {
        usize::MIN
    }

    fn max_value() -> Self {
        usize::MAX
    }
}

impl Element for i8 {
    open spec fn as_int(self) -> int {
        self as int
    }

    open spec fn min_int() -> int {
        i8::MIN as int
    }

    open spec fn max_int() -> int {
        i8::MAX as int
    }

    proof fn lemma_in_bounds(self) {
    }

    proof fn lemma_as_int_injective(a: Self, b: Self) {
    }

    fn el_eq(self, other: Self) -> bool {
        self == other
    }

    fn el_lt(self, other: Self) -> bool {
        self < other
    }

    fn min_value() -> Self {
        i8::MIN
    }

    fn max_value() -> Self {
        i8::MAX
    }
}

impl Element for i16 {
    open spec fn as_int(self) -> int {
        self as int
    }

    open spec fn min_int() -> int {
        i16::MIN as int
    }

    open spec fn max_int() -> int {
        i16::MAX as int
    }

    proof fn lemma_in_bounds(self) {
    }

    proof fn lemma_as_int_injective(a: Self, b: Self) {
    }

    fn el_eq(self, other: Self) -> bool {
        self == other
    }

    fn el_lt(self, other: Self) -> bool {
        self < other
    }

    fn min_value() -> Self {
        i16::MIN
    }

    fn max_value() -> Self {
        i16::MAX
    }
}

impl Element for i32 {
    open spec fn as_int(self) -> int {
        self as int
    }

    open spec fn min_int() -> int {
        i32::MIN as int
    }

    open spec fn max_int() -> int {
        i32::MAX as int
    }

    proof fn lemma_in_bounds(self) {
    }

    proof fn lemma_as_int_injective(a: Self, b: Self) {
    }

    fn el_eq(self, other: Self) -> bool {
        self == other
    }

    fn el_lt(self, other: Self) -> bool {
        self < other
    }

    fn min_value() -> Self {
        i32::MIN
    }

    fn max_value() -> Self {
        i32::MAX
    }
}

impl Element for i64 {
    open spec fn as_int(self) -> int {
        self as int
    }

    open spec fn min_int() -> int {
        i64::MIN as int
    }

    open spec fn max_int() -> int {
        i64::MAX as int
    }

    proof fn lemma_in_bounds(self) {
    }

    proof fn lemma_as_int_injective(a: Self, b: Self) {
    }

    fn el_eq(self, other: Self) -> bool {
        self == other
    }

    fn el_lt(self, other: Self) -> bool {
        self < other
    }

    fn min_value() -> Self {
        i64::MIN
    }

    fn max_value() -> Self {
        i64::MAX
    }
}

impl Element for i128 {
    open spec fn as_int(self) -> int {
        self as int
    }

    open spec fn min_int() -> int {
        i128::MIN as int
    }

    open spec fn max_int() -> int {
        i128::MAX as int
    }

    proof fn lemma_in_bounds(self) {
    }

    proof fn lemma_as_int_injective(a: Self, b: Self) {
    }

    fn el_eq(self, other: Self) -> bool {
        self == other
    }

    fn el_lt(self, other: Self) -> bool {
        self < other
    }

    fn min_value() -> Self {
        i128::MIN
    }

    fn max_value() -> Self {
        i128::MAX
    }
}

impl Element for isize {
    open spec fn as_int(self) -> int {
        self as int
    }

    open spec fn min_int() -> int {
        isize::MIN as int
    }

    open spec fn max_int() -> int {
        isize::MAX as int
    }

    proof fn lemma_in_bounds(self) {
    }

    proof fn lemma_as_int_injective(a: Self, b: Self) {
    }

    fn el_eq(self, other: Self) -> bool {
        self == other
    }

    fn el_lt(self, other: Self) -> bool {
        self < other
    }

    fn min_value() -> Self {
        isize::MIN
    }

    fn max_value() -> Self {
        isize::MAX
    }
}

} // verus!
