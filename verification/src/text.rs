use crate::array::KeyArray;
use core::fmt::{Debug, Display};
use vstd::prelude::*;
use vstd::string::*;

verus! {

/// The character that stands for the digit `d`.
pub open spec fn digit(d: nat) -> char
    recommends
        d < 10,
{
    if d == 0 {
        '0'
    } else if d == 1 {
        '1'
    } else if d == 2 {
        '2'
    } else if d == 3 {
        '3'
    } else if d == 4 {
        '4'
    } else if d == 5 {
        '5'
    } else if d == 6 {
        '6'
    } else if d == 7 {
        '7'
    } else if d == 8 {
        '8'
    } else {
        '9'
    }
}

/// The decimal numeral of `n`: most significant digit first, no leading
/// zero except for zero itself.
pub open spec fn decimal(n: nat) -> Seq<char>
    decreases n,
{
    if n < 10 {
        seq![digit(n)]
    } else {
        decimal(n / 10).push(digit(n % 10))
    }
}

/// What a key array is shown as, given the text of its key list and the
/// text of its current key.
pub open spec fn rendering(keys_text: Seq<char>, idx: nat, current_text: Seq<char>) -> Seq<char> {
    "keys="@ + keys_text + ", current_idx="@ + decimal(idx) + ", current="@ + current_text
}

fn digit_str(d: usize) -> (s: &'static str)
    requires
        d < 10,
    ensures
        s@ == seq![digit(d as nat)],
{
    proof {
        reveal_strlit("0");
        reveal_strlit("1");
        reveal_strlit("2");
        reveal_strlit("3");
        reveal_strlit("4");
        reveal_strlit("5");
        reveal_strlit("6");
        reveal_strlit("7");
        reveal_strlit("8");
        reveal_strlit("9");
    }
    let s = match d {
        0 => "0",
        1 => "1",
        2 => "2",
        3 => "3",
        4 => "4",
        5 => "5",
        6 => "6",
        7 => "7",
        8 => "8",
        _ => "9",
    };
    assert(s@ =~= seq![digit(d as nat)]);
    s
}

/// Writes `n` as a decimal numeral.
pub fn decimal_string(n: usize) -> (s: String)
    ensures
        s@ == decimal(n as nat),
    decreases n,
{
    if n < 10 {
        String::from_str(digit_str(n))
    } else {
        let mut s = decimal_string(n / 10);
        s.append(digit_str(n % 10));
        assert(s@ =~= decimal(n as nat));
        s
    }
}

/// Puts together the text that shows a key array from the text of its key
/// list, the index of its current key and the text of that key.
pub fn render(keys_text: &str, idx: usize, current_text: &str) -> (s: String)
    ensures
        s@ == rendering(keys_text@, idx as nat, current_text@),
{
    let mut s = String::from_str("keys=");
    s.append(keys_text);
    s.append(", current_idx=");
    let digits = decimal_string(idx);
    s.append(digits.as_str());
    s.append(", current=");
    s.append(current_text);
    s
}

/// Calls std's `format!` with `{:?}` on a list of keys, which runs the
/// `Debug` impl of slices. The text depends on what the `Debug` impl of `K`
/// writes for each key, so nothing is claimed about it.
#[verifier::external_body]
fn debug_text<K: Debug>(keys: &[K]) -> String {
    format!("{:?}", keys)
}

impl<K: Debug + Display> KeyArray<K> {
    /// Shows the key array as one line of text: the list of keys, the index
    /// of the current key and the current key.
    ///
    /// The index is written as a decimal numeral. The text of the key list
    /// comes from the `Debug` impl of `K` and that of the current key from
    /// its `Display` impl.
    pub fn to_display_string(&self) -> (s: String)
        requires
            self.wf(),
        ensures
            exists|keys_text: Seq<char>, current_text: String|
                {
                    &&& to_string_from_display_ensures::<K>(&self@.current(), current_text)
                    &&& s@ == #[trigger] rendering(keys_text, self@.cursor, current_text@)
                },
    {
        let keys_text = debug_text(self.keys());
        let current_text = self.current().to_string();
        render(keys_text.as_str(), self.current_index(), current_text.as_str())
    }
}

} // verus!
