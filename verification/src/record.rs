//! What the processor reports about one item.

use crate::decimal::{append_decimal, decimal_digits, decimal_value, lemma_decimal_round_trip};
use vstd::prelude::*;
use vstd::utf8::{encode_utf8, is_ascii_chars, is_ascii_chars_encode_utf8};

verus! {

/// The facts recorded about one processed item.
#[derive(Debug)]
pub struct ProcessData {
    /// Size of the item's text in bytes.
    pub length: usize,
    /// The moment of processing as text: an RFC 3339 date and time in UTC
    /// where the clock was asked.
    pub processed_at: String,
    /// The item's place in the sequence of processed items, counted from 1.
    pub item_number: usize,
}

/// The outcome of processing one item.
#[derive(Debug)]
pub struct ProcessResult {
    /// Whether the processing was successful.
    pub success: bool,
    /// Message describing the outcome.
    pub message: String,
    /// The facts recorded about the item, if any.
    pub data: Option<ProcessData>,
}

/// [`ProcessData`] as mathematical values: numbers without bound and text as
/// a sequence of characters.
pub struct ProcessDataView {
    pub length: nat,
    pub processed_at: Seq<char>,
    pub item_number: nat,
}

/// [`ProcessResult`] as mathematical values.
pub struct ProcessResultView {
    pub success: bool,
    pub message: Seq<char>,
    pub data: Option<ProcessDataView>,
}

impl View for ProcessData {
    type V = ProcessDataView;

    open spec fn view(&self) -> ProcessDataView {
        ProcessDataView {
            length: self.length as nat,
            processed_at: self.processed_at@,
            item_number: self.item_number as nat,
        }
    }
}

impl View for ProcessResult {
    type V = ProcessResultView;

    open spec fn view(&self) -> ProcessResultView {
        ProcessResultView {
            success: self.success,
            message: self.message@,
            data: match self.data {
                Some(data) => Some(data@),
                None => None,
            },
        }
    }
}

/// The size of `text` in bytes, that is the length of its UTF-8 encoding.
/// Sizes are always counted this way, never in characters.
pub open spec fn byte_len(text: Seq<char>) -> nat {
    encode_utf8(text).len()
}

/// How every message starts, before the item's number.
pub const MESSAGE_PREFIX: &'static str = "Successfully processed item #";

/// The characters of [`MESSAGE_PREFIX`].
pub open spec fn message_prefix() -> Seq<char> {
    MESSAGE_PREFIX@
}

/// The message for the item with the given number: the fixed opening followed
/// by the number in decimal.
pub open spec fn item_message(item: nat) -> Seq<char> {
    message_prefix() + decimal_digits(item)
}

/// The number that a message names: what its text after the fixed opening
/// denotes in decimal.
pub open spec fn named_item(message: Seq<char>) -> nat {
    decimal_value(message.skip(message_prefix().len() as int))
}

/// A message names the number of its item: it starts with the fixed opening,
/// the rest is that number in decimal, and reading it gives the number back.
pub proof fn lemma_message_names_item(item: nat)
    ensures
        message_prefix().is_prefix_of(item_message(item)),
        item_message(item).skip(message_prefix().len() as int) == decimal_digits(item),
        named_item(item_message(item)) == item,
{
    lemma_decimal_round_trip(item);
    assert(item_message(item).skip(message_prefix().len() as int) =~= decimal_digits(item));
}

/// Items with different numbers get different messages.
pub proof fn lemma_messages_differ(a: nat, b: nat)
    requires
        a != b,
    ensures
        item_message(a) != item_message(b),
{
    lemma_message_names_item(a);
    lemma_message_names_item(b);
}

/// Empty text has size zero.
pub proof fn lemma_byte_len_empty()
    ensures
        byte_len(Seq::<char>::empty()) == 0,
{
}

/// Every character takes at least one byte and at most four.
pub proof fn lemma_byte_len_bounds(text: Seq<char>)
    ensures
        text.len() <= byte_len(text) <= 4 * text.len(),
    decreases text.len(),
{
    if text.len() > 0 {
        lemma_byte_len_bounds(text.drop_first());
    }
}

/// Text made of ASCII characters only has one byte per character.
pub proof fn lemma_byte_len_ascii(text: Seq<char>)
    requires
        is_ascii_chars(text),
    ensures
        byte_len(text) == text.len(),
{
    is_ascii_chars_encode_utf8(text);
}

/// The size of `text` in bytes, counted on its bytes: their number is known
/// to fit in `usize`.
pub(crate) fn size_in_bytes(text: &str) -> (size: usize)
    ensures
        size == byte_len(text@),
{
    text.as_bytes().len()
}

/// The message for the item with the given number.
pub(crate) fn item_message_text(item: usize) -> (text: String)
    ensures
        text@ == item_message(item as nat),
{
    let mut text = MESSAGE_PREFIX.to_owned();
    append_decimal(&mut text, item);
    text
}

} // verus!
