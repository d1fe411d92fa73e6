//! An oracle and its feeds: values that go stale after 48 hours.

use crate::key::Key;
use vstd::prelude::*;

verus! {

/// The greatest length of a feed's name, in bytes.
pub const MAX_NAME_LEN: usize = 32;

/// The greatest length of a feed's description, in bytes.
pub const MAX_DESCRIPTION_LEN: usize = 100;

/// The age, in seconds, from which on a feed's value is stale: 48 hours.
pub const MAX_AGE_SECONDS: i64 = 172_800;

/// The master record of an oracle.
#[derive(Clone, Copy, Debug, PartialEq, Eq)]
pub struct Oracle {
    /// Who may create feeds and hand the oracle on.
    pub authority: Key,
    /// The number of feeds created so far.
    pub feed_count: u32,
}

/// One feed of values.
#[derive(Clone, Debug, PartialEq, Eq)]
pub struct PriceFeed {
    /// The oracle this feed belongs to.
    pub oracle: Key,
    /// Who may update the feed; it may differ from the oracle's authority.
    pub authority: Key,
    pub feed_id: u32,
    pub name: String,
    pub description: String,
    /// The current value.
    pub value: u64,
    /// When the value was last set.
    pub last_updated: i64,
    /// How often the value was set.
    pub update_count: u64,
    pub is_active: bool,
}

/// What an oracle tells of itself.
#[derive(Clone, Copy, Debug, PartialEq, Eq)]
pub struct OracleInfo {
    pub authority: Key,
    pub feed_count: u32,
}

/// What a feed tells of itself.
#[derive(Clone, Debug, PartialEq, Eq)]
pub struct FeedInfo {
    pub feed_id: u32,
    pub name: String,
    pub description: String,
    pub value: u64,
    pub last_updated: i64,
    pub update_count: u64,
    pub is_active: bool,
}

/// Why a request on an oracle or a feed was refused.
#[derive(Clone, Copy, Debug, PartialEq, Eq, Structural)]
pub enum OracleError {
    /// The value is 48 hours old or older.
    StaleData,
    /// The caller may not do this.
    Unauthorized,
    /// The feed is switched off.
    FeedInactive,
    /// The name is longer than 32 bytes.
    NameTooLong,
    /// The description is longer than 100 bytes.
    DescriptionTooLong,
}

/// The mathematical value of a [`PriceFeed`].
pub ghost struct PriceFeedView {
    pub oracle: Key,
    pub authority: Key,
    pub feed_id: u32,
    pub name: Seq<char>,
    pub description: Seq<char>,
    pub value: u64,
    pub last_updated: i64,
    pub update_count: u64,
    pub is_active: bool,
}

impl View for PriceFeed {
    type V = PriceFeedView;

    open spec fn view(&self) -> PriceFeedView {
        PriceFeedView {
            oracle: self.oracle,
            authority: self.authority,
            feed_id: self.feed_id,
            name: self.name@,
            description: self.description@,
            value: self.value,
            last_updated: self.last_updated,
            update_count: self.update_count,
            is_active: self.is_active,
        }
    }
}

/// The mathematical value of a [`FeedInfo`].
pub ghost struct FeedInfoView {
    pub feed_id: u32,
    pub name: Seq<char>,
    pub description: Seq<char>,
    pub value: u64,
    pub last_updated: i64,
    pub update_count: u64,
    pub is_active: bool,
}

impl View for FeedInfo {
    type V = FeedInfoView;

    open spec fn view(&self) -> FeedInfoView {
        FeedInfoView {
            feed_id: self.feed_id,
            name: self.name@,
            description: self.description@,
            value: self.value,
            last_updated: self.last_updated,
            update_count: self.update_count,
            is_active: self.is_active,
        }
    }
}

/// The number of bytes that `text` takes in UTF-8.
pub open spec fn byte_len(text: Seq<char>) -> nat {
    vstd::utf8::encode_utf8(text).len()
}

impl PriceFeedView {
    /// What the feed tells of itself.
    pub open spec fn info(self) -> FeedInfoView {
        FeedInfoView {
            feed_id: self.feed_id,
            name: self.name,
            description: self.description,
            value: self.value,
            last_updated: self.last_updated,
            update_count: self.update_count,
            is_active: self.is_active,
        }
    }

    /// The feed's value as read at time `now`, or why it cannot be read: a
    /// feed that is switched off gives `FeedInactive`, and else a value set
    /// 48 hours before `now` or earlier gives `StaleData`. The age is the
    /// exact difference of the two times, however far apart they are.
    pub open spec fn value_at(self, now: i64) -> Result<u64, OracleError> {
        if !self.is_active {
            Err(OracleError::FeedInactive)
        } else if now - self.last_updated >= MAX_AGE_SECONDS {
            Err(OracleError::StaleData)
        } else {
            Ok(self.value)
        }
    }
}

/// The feed that an oracle with `feed_count` feeds creates at time `now`,
/// or why it is refused: the name is checked first, then the description.
/// The feed takes the count as its identifier and starts active, at value
/// zero, with no update.
pub open spec fn created_feed(
    feed_count: u32,
    oracle_key: Key,
    authority: Key,
    feed_name: Seq<char>,
    description: Seq<char>,
    now: i64,
) -> Result<PriceFeedView, OracleError> {
    if byte_len(feed_name) > MAX_NAME_LEN {
        Err(OracleError::NameTooLong)
    } else if byte_len(description) > MAX_DESCRIPTION_LEN {
        Err(OracleError::DescriptionTooLong)
    } else {
        Ok(
            PriceFeedView {
                oracle: oracle_key,
                authority,
                feed_id: feed_count,
                name: feed_name,
                description,
                value: 0,
                last_updated: now,
                update_count: 0,
                is_active: true,
            },
        )
    }
}

/// Makes `oracle` a new oracle of `authority`, without feeds.
pub fn initialize_oracle(oracle: &mut Oracle, authority: Key) -> (res: Result<(), OracleError>)
    ensures
        res is Ok,
        final(oracle).authority == authority,
        final(oracle).feed_count == 0,
{
    oracle.authority = authority;
    oracle.feed_count = 0;
    Ok(())
}

/// Creates a feed of the oracle stored under `oracle_key`, at time `now`.
///
/// Fails with `NameTooLong` if `feed_name` takes more than 32 bytes, else
/// with `DescriptionTooLong` if `description` takes more than 100 bytes. On
/// success the oracle counts one feed more.
pub fn create_feed(
    oracle: &mut Oracle,
    oracle_key: Key,
    authority: Key,
    feed_name: String,
    description: String,
    now: i64,
) -> (res: Result<PriceFeed, OracleError>)
    requires
        created_feed(
            old(oracle).feed_count,
            oracle_key,
            authority,
            feed_name@,
            description@,
            now,
        ) is Ok ==> old(oracle).feed_count < u32::MAX,
    ensures
        final(oracle).authority == old(oracle).authority,
        match created_feed(
            old(oracle).feed_count,
            oracle_key,
            authority,
            feed_name@,
            description@,
            now,
        ) {
            Ok(created) => {
                &&& res matches Ok(feed)
                &&& feed@ == created
                &&& final(oracle).feed_count == old(oracle).feed_count + 1
            },
            Err(e) => res == Err::<PriceFeed, OracleError>(e) && final(oracle).feed_count == old(
                oracle,
            ).feed_count,
        },
{
    if feed_name.as_str().as_bytes().len() > MAX_NAME_LEN {
        return Err(OracleError::NameTooLong);
    }
    if description.as_str().as_bytes().len() > MAX_DESCRIPTION_LEN {
        return Err(OracleError::DescriptionTooLong);
    }
    let feed = PriceFeed {
        oracle: oracle_key,
        authority,
        feed_id: oracle.feed_count,
        name: feed_name,
        description,
        value: 0,
        last_updated: now,
        update_count: 0,
        is_active: true,
    };
    oracle.feed_count += 1;
    Ok(feed)
}

/// Sets the value of `price_feed` to `new_value` at time `now`.
///
/// Fails with `FeedInactive`, leaving the feed as it is, if the feed is
/// switched off.
pub fn update_feed(price_feed: &mut PriceFeed, new_value: u64, now: i64) -> (res: Result<
    (),
    OracleError,
>)
    requires
        old(price_feed).is_active ==> old(price_feed).update_count < u64::MAX,
    ensures
        old(price_feed).is_active ==> res is Ok && final(price_feed)@ == (PriceFeedView {
            value: new_value,
            last_updated: now,
            update_count: (old(price_feed).update_count + 1) as u64,
            ..old(price_feed)@
        }),
        !old(price_feed).is_active ==> res == Err::<(), OracleError>(OracleError::FeedInactive)
            && *final(price_feed) == *old(price_feed),
{
    if !price_feed.is_active {
        return Err(OracleError::FeedInactive);
    }
    price_feed.value = new_value;
    price_feed.last_updated = now;
    price_feed.update_count += 1;
    Ok(())
}

/// Reads the value of `price_feed` at time `now`.
///
/// Fails with `FeedInactive` if the feed is switched off, else with
/// `StaleData` if the value was set 48 hours before `now` or earlier.
pub fn get_feed_value(price_feed: &PriceFeed, now: i64) -> (res: Result<u64, OracleError>)
    ensures
        res == price_feed@.value_at(now),
{
    if !price_feed.is_active {
        return Err(OracleError::FeedInactive);
    }
    let age = now as i128 - price_feed.last_updated as i128;
    if age >= MAX_AGE_SECONDS as i128 {
        return Err(OracleError::StaleData);
    }
    Ok(price_feed.value)
}

/// Switches `price_feed` on if it is off, and off if it is on.
pub fn toggle_feed_status(price_feed: &mut PriceFeed) -> (res: Result<(), OracleError>)
    ensures
        res is Ok,
        final(price_feed)@ == (PriceFeedView {
            is_active: !old(price_feed).is_active,
            ..old(price_feed)@
        }),
{
    price_feed.is_active = !price_feed.is_active;
    Ok(())
}

/// Replaces the description of `price_feed`, if a new one is given.
///
/// Fails with `DescriptionTooLong`, leaving the feed as it is, if the new
/// description takes more than 100 bytes.
pub fn update_feed_metadata(price_feed: &mut PriceFeed, new_description: Option<String>) -> (res:
    Result<(), OracleError>)
    ensures
        match new_description {
            Some(description) => if byte_len(description@) > MAX_DESCRIPTION_LEN {
                res == Err::<(), OracleError>(OracleError::DescriptionTooLong) && *final(price_feed)
                    == *old(price_feed)
            } else {
                res is Ok && final(price_feed)@ == (PriceFeedView {
                    description: description@,
                    ..old(price_feed)@
                })
            },
            None => res is Ok && *final(price_feed) == *old(price_feed),
        },
{
    if let Some(description) = new_description {
        if description.as_str().as_bytes().len() > MAX_DESCRIPTION_LEN {
            return Err(OracleError::DescriptionTooLong);
        }
        price_feed.description = description;
    }
    Ok(())
}

/// Hands `oracle` on to `new_authority`.
pub fn transfer_oracle_authority(oracle: &mut Oracle, new_authority: Key) -> (res: Result<
    (),
    OracleError,
>)
    ensures
        res is Ok,
        final(oracle).authority == new_authority,
        final(oracle).feed_count == old(oracle).feed_count,
{
    oracle.authority = new_authority;
    Ok(())
}

/// Hands `price_feed` on to `new_authority`.
pub fn transfer_feed_authority(price_feed: &mut PriceFeed, new_authority: Key) -> (res: Result<
    (),
    OracleError,
>)
    ensures
        res is Ok,
        final(price_feed)@ == (PriceFeedView { authority: new_authority, ..old(price_feed)@ }),
{
    price_feed.authority = new_authority;
    Ok(())
}

/// What `oracle` tells of itself.
pub fn get_oracle_info(oracle: &Oracle) -> (res: Result<OracleInfo, OracleError>)
    ensures
        res matches Ok(info) && info.authority == oracle.authority && info.feed_count
            == oracle.feed_count,
{
    Ok(OracleInfo { authority: oracle.authority, feed_count: oracle.feed_count })
}

/// What `price_feed` tells of itself.
pub fn get_feed_info(price_feed: &PriceFeed) -> (res: Result<FeedInfo, OracleError>)
    ensures
        res matches Ok(info) && info@ == price_feed@.info(),
{
    Ok(
        FeedInfo {
            feed_id: price_feed.feed_id,
            name: price_feed.name.clone(),
            description: price_feed.description.clone(),
            value: price_feed.value,
            last_updated: price_feed.last_updated,
            update_count: price_feed.update_count,
            is_active: price_feed.is_active,
        },
    )
}

} // verus!
