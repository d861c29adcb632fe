//! What can be logged, and what a value is handed to when it is written out.

use vstd::prelude::*;

verus! {

/// Failure of a serializer to take a value.
#[derive(Clone, Copy, Debug, PartialEq, Eq, Structural)]
pub enum Error {
    /// The output behind the serializer failed.
    Io,
    /// Any other failure.
    Other,
}

/// One primitive value as a serializer is handed it: its kind and what it
/// holds.
pub enum Emitted {
    Nothing,
    Unit,
    Bool(bool),
    Char(char),
    U8(u8),
    I8(i8),
    U16(u16),
    I16(i16),
    U32(u32),
    I32(i32),
    U64(u64),
    I64(i64),
    Usize(usize),
    Isize(isize),
    Str(Seq<char>),
}

/// The account of a serializer after it has taken one more pair: the pair
/// is added at the end, where an account is kept at all.
pub open spec fn taken(
    account: Option<Seq<(Seq<char>, Emitted)>>,
    key: Seq<char>,
    val: Emitted,
) -> Option<Seq<(Seq<char>, Emitted)>> {
    match account {
        Some(pairs) => Some(pairs.push((key, val))),
        None => None,
    }
}

/// An output format: one method for each kind of primitive value.
///
/// A format may keep an account of the pairs that it has taken, in the order
/// in which it took them; `emitted` is that account, and `None` where the
/// format keeps none. Each emit method that succeeds has added its pair to
/// the account. What else a method does with the pair is the format's own
/// business.
pub trait Serializer {
    /// The pairs taken so far, or `None` where no account is kept.
    open spec fn emitted(&self) -> Option<Seq<(Seq<char>, Emitted)>> {
        None
    }

    /// Takes an absent value.
    fn emit_none(&mut self, key: &str) -> (r: Result<(), Error>)
        ensures
            r.is_ok() ==> final(self).emitted() == taken(
                old(self).emitted(),
                key@,
                Emitted::Nothing,
            ),
    ;

    /// Takes the unit value.
    fn emit_unit(&mut self, key: &str) -> (r: Result<(), Error>)
        ensures
            r.is_ok() ==> final(self).emitted() == taken(old(self).emitted(), key@, Emitted::Unit),
    ;

    /// Takes a `bool`.
    fn emit_bool(&mut self, key: &str, val: bool) -> (r: Result<(), Error>)
        ensures
            r.is_ok() ==> final(self).emitted() == taken(
                old(self).emitted(),
                key@,
                Emitted::Bool(val),
            ),
    ;

    /// Takes a `char`.
    fn emit_char(&mut self, key: &str, val: char) -> (r: Result<(), Error>)
        ensures
            r.is_ok() ==> final(self).emitted() == taken(
                old(self).emitted(),
                key@,
                Emitted::Char(val),
            ),
    ;

    /// Takes a `u8`.
    fn emit_u8(&mut self, key: &str, val: u8) -> (r: Result<(), Error>)
        ensures
            r.is_ok() ==> final(self).emitted() == taken(
                old(self).emitted(),
                key@,
                Emitted::U8(val),
            ),
    ;

    /// Takes a `i8`.
    fn emit_i8(&mut self, key: &str, val: i8) -> (r: Result<(), Error>)
        ensures
            r.is_ok() ==> final(self).emitted() == taken(
                old(self).emitted(),
                key@,
                Emitted::I8(val),
            ),
    ;

    /// Takes a `u16`.
    fn emit_u16(&mut self, key: &str, val: u16) -> (r: Result<(), Error>)
        ensures
            r.is_ok() ==> final(self).emitted() == taken(
                old(self).emitted(),
                key@,
                Emitted::U16(val),
            ),
    ;

    /// Takes a `i16`.
    fn emit_i16(&mut self, key: &str, val: i16) -> (r: Result<(), Error>)
        ensures
            r.is_ok() ==> final(self).emitted() == taken(
                old(self).emitted(),
                key@,
                Emitted::I16(val),
            ),
    ;

    /// Takes a `u32`.
    fn emit_u32(&mut self, key: &str, val: u32) -> (r: Result<(), Error>)
        ensures
            r.is_ok() ==> final(self).emitted() == taken(
                old(self).emitted(),
                key@,
                Emitted::U32(val),
            ),
    ;

    /// Takes a `i32`.
    fn emit_i32(&mut self, key: &str, val: i32) -> (r: Result<(), Error>)
        ensures
            r.is_ok() ==> final(self).emitted() == taken(
                old(self).emitted(),
                key@,
                Emitted::I32(val),
            ),
    ;

    /// Takes a `u64`.
    fn emit_u64(&mut self, key: &str, val: u64) -> (r: Result<(), Error>)
        ensures
            r.is_ok() ==> final(self).emitted() == taken(
                old(self).emitted(),
                key@,
                Emitted::U64(val),
            ),
    ;

    /// Takes a `i64`.
    fn emit_i64(&mut self, key: &str, val: i64) -> (r: Result<(), Error>)
        ensures
            r.is_ok() ==> final(self).emitted() == taken(
                old(self).emitted(),
                key@,
                Emitted::I64(val),
            ),
    ;

    /// Takes a `usize`.
    fn emit_usize(&mut self, key: &str, val: usize) -> (r: Result<(), Error>)
        ensures
            r.is_ok() ==> final(self).emitted() == taken(
                old(self).emitted(),
                key@,
                Emitted::Usize(val),
            ),
    ;

    /// Takes a `isize`.
    fn emit_isize(&mut self, key: &str, val: isize) -> (r: Result<(), Error>)
        ensures
            r.is_ok() ==> final(self).emitted() == taken(
                old(self).emitted(),
                key@,
                Emitted::Isize(val),
            ),
    ;

    /// Takes a text.
    fn emit_str(&mut self, key: &str, val: &str) -> (r: Result<(), Error>)
        ensures
            r.is_ok() ==> final(self).emitted() == taken(
                old(self).emitted(),
                key@,
                Emitted::Str(val@),
            ),
    ;
}

/// A value that can be logged: it hands itself to a serializer under a key,
/// by one call of the emit method of its kind.
///
/// `emits` is what the value hands over, or `None` where the value does not
/// say. Where it says, a call of `serialize` that succeeds has added exactly
/// that value, under the given key, to the serializer's account.
pub trait Serialize {
    /// What the value hands to a serializer, where it says so.
    open spec fn emits(&self) -> Option<Emitted> {
        None
    }

    /// Hands the value to `serializer` under `key`.
    fn serialize(&self, key: &str, serializer: &mut dyn Serializer) -> (r: Result<(), Error>)
        ensures
            r.is_ok() ==> match self.emits() {
                Some(val) => final(serializer).emitted() == taken(
                    old(serializer).emitted(),
                    key@,
                    val,
                ),
                None => true,
            },
    ;
}

/// A loggable value that many threads may read at once: what a logger's
/// context holds. It hands itself over as a `Serialize` value does.
pub trait SyncSerialize: Send + Sync {
    /// What the value hands to a serializer, where it says so.
    open spec fn emits(&self) -> Option<Emitted> {
        None
    }

    /// Hands the value to `serializer` under `key`.
    fn serialize(&self, key: &str, serializer: &mut dyn Serializer) -> (r: Result<(), Error>)
        ensures
            r.is_ok() ==> match self.emits() {
                Some(val) => final(serializer).emitted() == taken(
                    old(serializer).emitted(),
                    key@,
                    val,
                ),
                None => true,
            },
    ;
}

impl Serialize for bool {
    open spec fn emits(&self) -> Option<Emitted> {
        Some(Emitted::Bool(*self))
    }

    fn serialize(&self, key: &str, serializer: &mut dyn Serializer) -> (r: Result<(), Error>) {
        serializer.emit_bool(key, *self)
    }
}

impl Serialize for () {
    open spec fn emits(&self) -> Option<Emitted> {
        Some(Emitted::Unit)
    }

    fn serialize(&self, key: &str, serializer: &mut dyn Serializer) -> (r: Result<(), Error>) {
        serializer.emit_unit(key)
    }
}

impl Serialize for char {
    open spec fn emits(&self) -> Option<Emitted> {
        Some(Emitted::Char(*self))
    }

    fn serialize(&self, key: &str, serializer: &mut dyn Serializer) -> (r: Result<(), Error>) {
        serializer.emit_char(key, *self)
    }
}

impl Serialize for u8 {
    open spec fn emits(&self) -> Option<Emitted> {
        Some(Emitted::U8(*self))
    }

    fn serialize(&self, key: &str, serializer: &mut dyn Serializer) -> (r: Result<(), Error>) {
        serializer.emit_u8(key, *self)
    }
}

impl Serialize for i8 {
    open spec fn emits(&self) -> Option<Emitted> {
        Some(Emitted::I8(*self))
    }

    fn serialize(&self, key: &str, serializer: &mut dyn Serializer) -> (r: Result<(), Error>) {
        serializer.emit_i8(key, *self)
    }
}

impl Serialize for u16 {
    open spec fn emits(&self) -> Option<Emitted> {
        Some(Emitted::U16(*self))
    }

    fn serialize(&self, key: &str, serializer: &mut dyn Serializer) -> (r: Result<(), Error>) {
        serializer.emit_u16(key, *self)
    }
}

impl Serialize for i16 {
    open spec fn emits(&self) -> Option<Emitted> {
        Some(Emitted::I16(*self))
    }

    fn serialize(&self, key: &str, serializer: &mut dyn Serializer) -> (r: Result<(), Error>) {
        serializer.emit_i16(key, *self)
    }
}

impl Serialize for u32 {
    open spec fn emits(&self) -> Option<Emitted> {
        Some(Emitted::U32(*self))
    }

    fn serialize(&self, key: &str, serializer: &mut dyn Serializer) -> (r: Result<(), Error>) {
        serializer.emit_u32(key, *self)
    }
}

impl Serialize for i32 {
    open spec fn emits(&self) -> Option<Emitted> {
        Some(Emitted::I32(*self))
    }

    fn serialize(&self, key: &str, serializer: &mut dyn Serializer) -> (r: Result<(), Error>) {
        serializer.emit_i32(key, *self)
    }
}

impl Serialize for u64 {
    open spec fn emits(&self) -> Option<Emitted> {
        Some(Emitted::U64(*self))
    }

    fn serialize(&self, key: &str, serializer: &mut dyn Serializer) -> (r: Result<(), Error>) {
        serializer.emit_u64(key, *self)
    }
}

impl Serialize for i64 {
    open spec fn emits(&self) -> Option<Emitted> {
        Some(Emitted::I64(*self))
    }

    fn serialize(&self, key: &str, serializer: &mut dyn Serializer) -> (r: Result<(), Error>) {
        serializer.emit_i64(key, *self)
    }
}

impl Serialize for usize {
    open spec fn emits(&self) -> Option<Emitted> {
        Some(Emitted::Usize(*self))
    }

    fn serialize(&self, key: &str, serializer: &mut dyn Serializer) -> (r: Result<(), Error>) {
        serializer.emit_usize(key, *self)
    }
}

impl Serialize for isize {
    open spec fn emits(&self) -> Option<Emitted> {
        Some(Emitted::Isize(*self))
    }

    fn serialize(&self, key: &str, serializer: &mut dyn Serializer) -> (r: Result<(), Error>) {
        serializer.emit_isize(key, *self)
    }
}

impl Serialize for &'static str {
    open spec fn emits(&self) -> Option<Emitted> {
        Some(Emitted::Str(self@))
    }

    fn serialize(&self, key: &str, serializer: &mut dyn Serializer) -> (r: Result<(), Error>) {
        serializer.emit_str(key, *self)
    }
}

impl Serialize for String {
    open spec fn emits(&self) -> Option<Emitted> {
        Some(Emitted::Str(self@))
    }

    fn serialize(&self, key: &str, serializer: &mut dyn Serializer) -> (r: Result<(), Error>) {
        serializer.emit_str(key, self.as_str())
    }
}

impl SyncSerialize for bool {
    open spec fn emits(&self) -> Option<Emitted> {
        Some(Emitted::Bool(*self))
    }

    fn serialize(&self, key: &str, serializer: &mut dyn Serializer) -> (r: Result<(), Error>) {
        serializer.emit_bool(key, *self)
    }
}

impl SyncSerialize for () {
    open spec fn emits(&self) -> Option<Emitted> {
        Some(Emitted::Unit)
    }

    fn serialize(&self, key: &str, serializer: &mut dyn Serializer) -> (r: Result<(), Error>) {
        serializer.emit_unit(key)
    }
}

impl SyncSerialize for char {
    open spec fn emits(&self) -> Option<Emitted> {
        Some(Emitted::Char(*self))
    }

    fn serialize(&self, key: &str, serializer: &mut dyn Serializer) -> (r: Result<(), Error>) {
        serializer.emit_char(key, *self)
    }
}

impl SyncSerialize for u8 {
    open spec fn emits(&self) -> Option<Emitted> {
        Some(Emitted::U8(*self))
    }

    fn serialize(&self, key: &str, serializer: &mut dyn Serializer) -> (r: Result<(), Error>) {
        serializer.emit_u8(key, *self)
    }
}

impl SyncSerialize for i8 {
    open spec fn emits(&self) -> Option<Emitted> {
        Some(Emitted::I8(*self))
    }

    fn serialize(&self, key: &str, serializer: &mut dyn Serializer) -> (r: Result<(), Error>) {
        serializer.emit_i8(key, *self)
    }
}

impl SyncSerialize for u16 {
    open spec fn emits(&self) -> Option<Emitted> {
        Some(Emitted::U16(*self))
    }

    fn serialize(&self, key: &str, serializer: &mut dyn Serializer) -> (r: Result<(), Error>) {
        serializer.emit_u16(key, *self)
    }
}

impl SyncSerialize for i16 {
    open spec fn emits(&self) -> Option<Emitted> {
        Some(Emitted::I16(*self))
    }

    fn serialize(&self, key: &str, serializer: &mut dyn Serializer) -> (r: Result<(), Error>) {
        serializer.emit_i16(key, *self)
    }
}

impl SyncSerialize for u32 {
    open spec fn emits(&self) -> Option<Emitted> {
        Some(Emitted::U32(*self))
    }

    fn serialize(&self, key: &str, serializer: &mut dyn Serializer) -> (r: Result<(), Error>) {
        serializer.emit_u32(key, *self)
    }
}

impl SyncSerialize for i32 {
    open spec fn emits(&self) -> Option<Emitted> {
        Some(Emitted::I32(*self))
    }

    fn serialize(&self, key: &str, serializer: &mut dyn Serializer) -> (r: Result<(), Error>) {
        serializer.emit_i32(key, *self)
    }
}

impl SyncSerialize for u64 {
    open spec fn emits(&self) -> Option<Emitted> {
        Some(Emitted::U64(*self))
    }

    fn serialize(&self, key: &str, serializer: &mut dyn Serializer) -> (r: Result<(), Error>) {
        serializer.emit_u64(key, *self)
    }
}

impl SyncSerialize for i64 {
    open spec fn emits(&self) -> Option<Emitted> {
        Some(Emitted::I64(*self))
    }

    fn serialize(&self, key: &str, serializer: &mut dyn Serializer) -> (r: Result<(), Error>) {
        serializer.emit_i64(key, *self)
    }
}

impl SyncSerialize for usize {
    open spec fn emits(&self) -> Option<Emitted> {
        Some(Emitted::Usize(*self))
    }

    fn serialize(&self, key: &str, serializer: &mut dyn Serializer) -> (r: Result<(), Error>) {
        serializer.emit_usize(key, *self)
    }
}

impl SyncSerialize for isize {
    open spec fn emits(&self) -> Option<Emitted> {
        Some(Emitted::Isize(*self))
    }

    fn serialize(&self, key: &str, serializer: &mut dyn Serializer) -> (r: Result<(), Error>) {
        serializer.emit_isize(key, *self)
    }
}

impl SyncSerialize for &'static str {
    open spec fn emits(&self) -> Option<Emitted> {
        Some(Emitted::Str(self@))
    }

    fn serialize(&self, key: &str, serializer: &mut dyn Serializer) -> (r: Result<(), Error>) {
        serializer.emit_str(key, *self)
    }
}

impl SyncSerialize for String {
    open spec fn emits(&self) -> Option<Emitted> {
        Some(Emitted::Str(self@))
    }

    fn serialize(&self, key: &str, serializer: &mut dyn Serializer) -> (r: Result<(), Error>) {
        serializer.emit_str(key, self.as_str())
    }
}

} // verus!
