use vstd::prelude::*;

verus! {

pub const LOWER_A: u8 = 97;
pub const LOWER_Z: u8 = 122;
pub const UPPER_A: u8 = 65;
pub const UPPER_Z: u8 = 90;
pub const DIGIT_0: u8 = 48;
pub const DIGIT_9: u8 = 57;
pub const UNDERSCORE: u8 = 95;

/// Bytes that may start a word: ASCII letters and `_`.
pub open spec fn is_word_start_byte(b: u8) -> bool {
    (LOWER_A <= b && b <= LOWER_Z) || (UPPER_A <= b && b <= UPPER_Z) || b == UNDERSCORE
}

/// Bytes that may continue a word: ASCII letters, digits and `_`.
pub open spec fn is_word_byte(b: u8) -> bool {
    is_word_start_byte(b) || (DIGIT_0 <= b && b <= DIGIT_9)
}

/// Checks whether a byte is a valid word constituent.
pub trait IsWord {
    spec fn spec_is_word_start(&self) -> bool;

    spec fn spec_is_word(&self) -> bool;

    fn is_word_start(&self) -> (r: bool)
        ensures
            r == self.spec_is_word_start(),
    ;

    fn is_word(&self) -> (r: bool)
        ensures
            r == self.spec_is_word(),
    ;
}

impl IsWord for u8 {
    open spec fn spec_is_word_start(&self) -> bool {
        is_word_start_byte(*self)
    }

    open spec fn spec_is_word(&self) -> bool {
        is_word_byte(*self)
    }

    fn is_word_start(&self) -> (r: bool) {
        let b = *self;
        (LOWER_A <= b && b <= LOWER_Z) || (UPPER_A <= b && b <= UPPER_Z) || b == UNDERSCORE
    }

    fn is_word(&self) -> (r: bool) {
        let b = *self;
        self.is_word_start() || (DIGIT_0 <= b && b <= DIGIT_9)
    }
}

} // verus!
