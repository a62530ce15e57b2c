//! Small text and counting exercises.
use vstd::prelude::*;
use vstd::string::*;

verus! {

/// The characters of `word` in reverse order.
pub fn reverse_string(word: &str) -> (reversed: String)
    ensures
        reversed@ == word@.reverse(),
{
    let n = word.unicode_len();
    let mut out = String::new();
    let mut i: usize = n;
    while i > 0
        invariant
            i <= n,
            n == word@.len(),
            out@ == word@.subrange(i as int, n as int).reverse(),
        decreases i,
    {
        let piece = word.substring_char(i - 1, i);
        out.append(piece);
        assert(word@.subrange(i - 1, n as int).reverse() =~= word@.subrange(i as int, n as int).reverse()
            + word@.subrange(i - 1, i as int));
        i = i - 1;
    }
    assert(word@.subrange(0, n as int) =~= word@);
    out
}

/// Whether `word` reads the same forwards and backwards, character by character.
pub fn is_palindrome(word: &str) -> (result: bool)
    ensures
        result == (word@ == word@.reverse()),
{
    let reversed = reverse_string(word);
    let original = word.to_owned();
    original == reversed
}

/// Reversing the characters of a word twice gives the word back, so
/// `reverse_string` applied to its own result returns the original text.
pub proof fn lemma_reverse_twice(word: Seq<char>)
    ensures
        word.reverse().reverse() == word,
{
    assert(word.reverse().reverse() =~= word);
}

/// One entry of an inventory.
pub struct InventoryItem {
    pub name: String,
    pub count: u32,
}

/// Whether `item` carries exactly the name `name`.
pub open spec fn item_named(item: InventoryItem, name: Seq<char>) -> bool {
    item.name@ == name
}

/// Looks `item_name` up in `inventory` and gives the position of the first
/// item with that exact name, or `None` when no item carries it.
pub fn is_available(inventory: &[InventoryItem], item_name: &str) -> (found: Option<usize>)
    ensures
        match found {
            Some(i) => {
                &&& i < inventory@.len()
                &&& item_named(inventory@[i as int], item_name@)
                &&& forall|j: int| 0 <= j < i ==> !item_named(#[trigger] inventory@[j], item_name@)
            },
            None => forall|j: int|
                0 <= j < inventory@.len() ==> !item_named(#[trigger] inventory@[j], item_name@),
        },
        found matches Some(i) ==> inventory@[i as int].name@ == item_name@,
        found matches Some(i) ==> forall|j: int|
            0 <= j < i ==> (#[trigger] inventory@[j]).name@ != item_name@,
        found is None ==> forall|j: int|
            0 <= j < inventory@.len() ==> (#[trigger] inventory@[j]).name@ != item_name@,
{
    let wanted = item_name.to_owned();
    let mut k: usize = 0;
    while k < inventory.len()
        invariant
            k <= inventory@.len(),
            wanted@ == item_name@,
            forall|j: int| 0 <= j < k ==> !item_named(#[trigger] inventory@[j], item_name@),
        decreases inventory@.len() - k,
    {
        if inventory[k].name == wanted {
            return Some(k);
        }
        k = k + 1;
    }
    None
}

/// What the counting game says for one number.
#[derive(PartialEq, Eq, Structural, Debug, Clone, Copy)]
pub enum FizzBuzz {
    /// The number itself, for numbers divisible by neither three nor five.
    Number(u32),
    /// Divisible by three but not by five.
    Fizz,
    /// Divisible by five but not by three.
    Buzz,
    /// Divisible by both three and five.
    FizzBuzz,
}

/// The word said for `i`.
pub open spec fn fizz_buzz_spec(i: u32) -> FizzBuzz {
    if i % 3 == 0 && i % 5 == 0 {
        FizzBuzz::FizzBuzz
    } else if i % 3 == 0 {
        FizzBuzz::Fizz
    } else if i % 5 == 0 {
        FizzBuzz::Buzz
    } else {
        FizzBuzz::Number(i)
    }
}

/// The word said for `i`.
pub fn fizz_buzz_word(i: u32) -> (word: FizzBuzz)
    ensures
        word == fizz_buzz_spec(i),
        i % 3 == 0 && i % 5 == 0 ==> word == FizzBuzz::FizzBuzz,
        i % 3 == 0 && i % 5 != 0 ==> word == FizzBuzz::Fizz,
        i % 3 != 0 && i % 5 == 0 ==> word == FizzBuzz::Buzz,
        i % 3 != 0 && i % 5 != 0 ==> word == FizzBuzz::Number(i),
{
    if i % 3 == 0 && i % 5 == 0 {
        FizzBuzz::FizzBuzz
    } else if i % 3 == 0 {
        FizzBuzz::Fizz
    } else if i % 5 == 0 {
        FizzBuzz::Buzz
    } else {
        FizzBuzz::Number(i)
    }
}

/// Each number gets the word its divisibility by three and five calls for:
/// both gives "FizzBuzz", three alone "Fizz", five alone "Buzz", and a number
/// divisible by neither is said as itself, never as another number.
pub proof fn lemma_fizz_buzz_word_rules(i: u32)
    ensures
        (fizz_buzz_spec(i) == FizzBuzz::FizzBuzz) <==> (i % 3 == 0 && i % 5 == 0),
        (fizz_buzz_spec(i) == FizzBuzz::Fizz) <==> (i % 3 == 0 && i % 5 != 0),
        (fizz_buzz_spec(i) == FizzBuzz::Buzz) <==> (i % 3 != 0 && i % 5 == 0),
        (fizz_buzz_spec(i) is Number) <==> (i % 3 != 0 && i % 5 != 0),
        forall|k: u32| fizz_buzz_spec(i) == FizzBuzz::Number(k) ==> k == i,
{
}

/// The lines of the counting game from 1 up to and including `n`, in order.
pub fn fizz_buzz(n: u32) -> (lines: Vec<FizzBuzz>)
    ensures
        lines@.len() == n,
        forall|k: int| 0 <= k < n ==> #[trigger] lines@[k] == fizz_buzz_spec((k + 1) as u32),
        forall|k: int|
            0 <= k < n && (k + 1) % 3 != 0 && (k + 1) % 5 != 0 ==> #[trigger] lines@[k]
                == FizzBuzz::Number((k + 1) as u32),
{
    let mut lines: Vec<FizzBuzz> = Vec::new();
    let mut i: u32 = 0;
    while i < n
        invariant
            i <= n,
            lines@.len() == i,
            forall|k: int| 0 <= k < i ==> #[trigger] lines@[k] == fizz_buzz_spec((k + 1) as u32),
        decreases n - i,
    {
        i = i + 1;
        lines.push(fizz_buzz_word(i));
    }
    lines
}

/// The game's words repeat with period fifteen, apart from the numbers
/// themselves: two numbers fifteen apart get the same word unless the word
/// is the number.
pub proof fn lemma_fizz_buzz_period(i: u32)
    requires
        i + 15 <= u32::MAX,
    ensures
        fizz_buzz_spec(i) is Number <==> fizz_buzz_spec((i + 15) as u32) is Number,
        !(fizz_buzz_spec(i) is Number) ==> fizz_buzz_spec(i) == fizz_buzz_spec((i + 15) as u32),
{
}

} // verus!
