//! The values that pass between clients, shards and the collation: key
//! images, queries, results and the codes a result carries.

use vstd::prelude::*;

verus! {

/// The width of a key image in bytes.
pub const KEY_IMAGE_LEN: usize = 32;

/// A tag derived from a spent output. Two key images are the same when all
/// their bytes are.
#[derive(Clone, Copy, Debug, PartialEq, Eq, Hash)]
pub struct KeyImage {
    pub bytes: [u8; KEY_IMAGE_LEN],
}

impl View for KeyImage {
    type V = Seq<u8>;

    open spec fn view(&self) -> Seq<u8> {
        self.bytes@
    }
}

impl KeyImage {
    /// The key image made of the given bytes.
    pub fn new(bytes: [u8; KEY_IMAGE_LEN]) -> (key_image: KeyImage)
        ensures
            key_image@ == bytes@,
            key_image.bytes == bytes,
    {
        KeyImage { bytes }
    }

    /// The bytes of the key image.
    pub fn as_bytes(&self) -> (bytes: &[u8])
        ensures
            bytes@ == self@,
    {
        vstd::array::array_as_slice(&self.bytes)
    }
}

/// What a shard found out about a key image.
///
/// On the wire a code travels as a `u32`; [`KeyImageResultCode::code`] gives
/// that number and [`KeyImageResultCode::from_code`] reads it back. A cast of
/// the enum does not give the wire number.
#[derive(Clone, Copy, Debug, PartialEq, Eq, Structural, Hash)]
pub enum KeyImageResultCode {
    /// The key image is in the ledger: the output was spent.
    Spent,
    /// The key image is not in the ledger.
    NotSpent,
    /// The shard could not tell. The client may ask again later.
    KeyImageError,
}

impl KeyImageResultCode {
    /// The number that stands for this code on the wire.
    pub open spec fn spec_code(self) -> u32 {
        match self {
            KeyImageResultCode::Spent => 1,
            KeyImageResultCode::NotSpent => 2,
            KeyImageResultCode::KeyImageError => 3,
        }
    }

    /// The code that a wire number stands for, if it stands for one.
    pub open spec fn spec_from_code(code: u32) -> Option<KeyImageResultCode> {
        if code == 1 {
            Some(KeyImageResultCode::Spent)
        } else if code == 2 {
            Some(KeyImageResultCode::NotSpent)
        } else if code == 3 {
            Some(KeyImageResultCode::KeyImageError)
        } else {
            None
        }
    }

    /// The number that stands for this code on the wire.
    #[verifier::when_used_as_spec(spec_code)]
    pub fn code(self) -> (code: u32)
        ensures
            code == self.spec_code(),
            KeyImageResultCode::spec_from_code(code) == Some(self),
    {
        match self {
            KeyImageResultCode::Spent => 1,
            KeyImageResultCode::NotSpent => 2,
            KeyImageResultCode::KeyImageError => 3,
        }
    }

    /// Reads a wire number. `None` for a number that stands for no code.
    pub fn from_code(code: u32) -> (decoded: Option<KeyImageResultCode>)
        ensures
            decoded == KeyImageResultCode::spec_from_code(code),
            forall|c: KeyImageResultCode| decoded == Some(c) <==> code == c.spec_code(),
    {
        if code == 1 {
            Some(KeyImageResultCode::Spent)
        } else if code == 2 {
            Some(KeyImageResultCode::NotSpent)
        } else if code == 3 {
            Some(KeyImageResultCode::KeyImageError)
        } else {
            None
        }
    }
}

/// How far the timestamp of a result can be relied on.
///
/// As with [`KeyImageResultCode`], the wire number comes from
/// [`TimestampResultCode::code`], not from a cast.
#[derive(Clone, Copy, Debug, PartialEq, Eq, Structural, Hash)]
pub enum TimestampResultCode {
    /// The timestamp is that of the block.
    TimestampFound,
    /// The watcher has not caught up with the block yet.
    WatcherBehind,
    /// No timestamp can be had for the block as things stand.
    Unavailable,
    /// The watcher's database failed.
    WatcherDatabaseError,
    /// The block index lies beyond the blocks that have timestamps.
    BlockIndexOutOfBounds,
}

impl TimestampResultCode {
    /// The number that stands for this code on the wire.
    pub open spec fn spec_code(self) -> u32 {
        match self {
            TimestampResultCode::TimestampFound => 1,
            TimestampResultCode::WatcherBehind => 2,
            TimestampResultCode::Unavailable => 3,
            TimestampResultCode::WatcherDatabaseError => 4,
            TimestampResultCode::BlockIndexOutOfBounds => 5,
        }
    }

    /// The code that a wire number stands for, if it stands for one.
    pub open spec fn spec_from_code(code: u32) -> Option<TimestampResultCode> {
        if code == 1 {
            Some(TimestampResultCode::TimestampFound)
        } else if code == 2 {
            Some(TimestampResultCode::WatcherBehind)
        } else if code == 3 {
            Some(TimestampResultCode::Unavailable)
        } else if code == 4 {
            Some(TimestampResultCode::WatcherDatabaseError)
        } else if code == 5 {
            Some(TimestampResultCode::BlockIndexOutOfBounds)
        } else {
            None
        }
    }

    /// The number that stands for this code on the wire.
    #[verifier::when_used_as_spec(spec_code)]
    pub fn code(self) -> (code: u32)
        ensures
            code == self.spec_code(),
            TimestampResultCode::spec_from_code(code) == Some(self),
    {
        match self {
            TimestampResultCode::TimestampFound => 1,
            TimestampResultCode::WatcherBehind => 2,
            TimestampResultCode::Unavailable => 3,
            TimestampResultCode::WatcherDatabaseError => 4,
            TimestampResultCode::BlockIndexOutOfBounds => 5,
        }
    }

    /// Reads a wire number. `None` for a number that stands for no code.
    pub fn from_code(code: u32) -> (decoded: Option<TimestampResultCode>)
        ensures
            decoded == TimestampResultCode::spec_from_code(code),
            forall|c: TimestampResultCode| decoded == Some(c) <==> code == c.spec_code(),
    {
        if code == 1 {
            Some(TimestampResultCode::TimestampFound)
        } else if code == 2 {
            Some(TimestampResultCode::WatcherBehind)
        } else if code == 3 {
            Some(TimestampResultCode::Unavailable)
        } else if code == 4 {
            Some(TimestampResultCode::WatcherDatabaseError)
        } else if code == 5 {
            Some(TimestampResultCode::BlockIndexOutOfBounds)
        } else {
            None
        }
    }
}

/// The block index of a result that no shard has filled in. Zero is taken:
/// on the wire it means that the field was not set.
pub const SPENT_AT_NOT_LOCATED: u64 = 1;

/// The timestamp of a result that no shard has filled in.
pub const TIMESTAMP_UNKNOWN: u64 = u64::MAX;

/// A client's question: has this key image been spent?
#[derive(Clone, Copy, Debug, PartialEq, Eq, Hash)]
pub struct KeyImageQuery {
    pub key_image: KeyImage,
}

/// A query as contracts see it.
pub ghost struct KeyImageQueryView {
    pub key_image: Seq<u8>,
}

impl View for KeyImageQuery {
    type V = KeyImageQueryView;

    open spec fn view(&self) -> KeyImageQueryView {
        KeyImageQueryView { key_image: self.key_image@ }
    }
}

impl DeepView for KeyImageQuery {
    type V = KeyImageQueryView;

    open spec fn deep_view(&self) -> KeyImageQueryView {
        self@
    }
}

/// The answer to a query. A shard reports one for each query it was sent; the
/// collation hands one back to the client for each query the client made.
///
/// The two codes are held as they travel on the wire. A shard may send a
/// number that stands for no code; such a result is carried along and never
/// takes the place of another.
#[derive(Clone, Copy, Debug, PartialEq, Eq, Hash)]
pub struct KeyImageResult {
    /// The key image that was asked about.
    pub key_image: KeyImage,
    /// The index of the block in which the key image appeared.
    pub spent_at: u64,
    /// The time of that block.
    pub timestamp: u64,
    /// A [`TimestampResultCode`] as its wire number.
    pub timestamp_result_code: u32,
    /// A [`KeyImageResultCode`] as its wire number.
    pub key_image_result_code: u32,
}

/// A result as contracts see it.
pub ghost struct KeyImageResultView {
    pub key_image: Seq<u8>,
    pub spent_at: u64,
    pub timestamp: u64,
    pub timestamp_result_code: u32,
    pub key_image_result_code: u32,
}

impl View for KeyImageResult {
    type V = KeyImageResultView;

    open spec fn view(&self) -> KeyImageResultView {
        KeyImageResultView {
            key_image: self.key_image@,
            spent_at: self.spent_at,
            timestamp: self.timestamp,
            timestamp_result_code: self.timestamp_result_code,
            key_image_result_code: self.key_image_result_code,
        }
    }
}

impl DeepView for KeyImageResult {
    type V = KeyImageResultView;

    open spec fn deep_view(&self) -> KeyImageResultView {
        self@
    }
}

/// The result that a query has before any shard result was looked at: not
/// spent, located in no block, with the timestamp unknown.
pub open spec fn default_result(key_image: Seq<u8>) -> KeyImageResultView {
    KeyImageResultView {
        key_image,
        spent_at: SPENT_AT_NOT_LOCATED,
        timestamp: TIMESTAMP_UNKNOWN,
        timestamp_result_code: TimestampResultCode::TimestampFound.spec_code(),
        key_image_result_code: KeyImageResultCode::NotSpent.spec_code(),
    }
}

impl KeyImageResult {
    /// The result that stands for `query` until a shard result replaces it.
    pub fn default_for(query: &KeyImageQuery) -> (result: KeyImageResult)
        ensures
            result@ == default_result(query@.key_image),
            result.key_image == query.key_image,
    {
        KeyImageResult {
            key_image: query.key_image,
            spent_at: SPENT_AT_NOT_LOCATED,
            timestamp: TIMESTAMP_UNKNOWN,
            timestamp_result_code: TimestampResultCode::TimestampFound.code(),
            key_image_result_code: KeyImageResultCode::NotSpent.code(),
        }
    }
}

} // verus!
