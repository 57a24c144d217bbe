//! `MPMediaPlaylist` property keys.
//!
//! Each key is an `NSString *` constant whose value is the documented Cocoa
//! property name.
#![allow(non_upper_case_globals)]

use vstd::prelude::*;

verus! {

/// Key of the playlist author's display name.
pub const MPMediaPlaylistPropertyAuthorDisplayName: &'static str = "authorDisplayName";

/// Key of the playlist's name.
pub const MPMediaPlaylistPropertyName: &'static str = "name";

/// Key of the playlist's description.
pub const MPMediaPlaylistPropertyDescriptionText: &'static str = "descriptionText";

/// Key of the playlist's persistent identifier.
pub const MPMediaPlaylistPropertyPersistentID: &'static str = "persistentID";

/// Key of the playlist's attributes.
pub const MPMediaPlaylistPropertyPlaylistAttributes: &'static str = "playlistAttributes";

/// Key of the playlist's cloud identifier.
pub const MPMediaPlaylistPropertyCloudGlobalID: &'static str = "cloudGlobalID";

/// Key of the items a genius playlist was seeded with.
pub const MPMediaPlaylistPropertySeedItems: &'static str = "seedItems";

} // verus!
