use touchhle::media_player::media_playlist::{
    MPMediaPlaylistPropertyAuthorDisplayName, MPMediaPlaylistPropertyCloudGlobalID,
    MPMediaPlaylistPropertyDescriptionText, MPMediaPlaylistPropertyName,
    MPMediaPlaylistPropertyPersistentID, MPMediaPlaylistPropertyPlaylistAttributes,
    MPMediaPlaylistPropertySeedItems,
};

#[test]
fn playlist_property_keys_are_the_cocoa_property_names() {
    assert_eq!(MPMediaPlaylistPropertyAuthorDisplayName, "authorDisplayName");
    assert_eq!(MPMediaPlaylistPropertyName, "name");
    assert_eq!(MPMediaPlaylistPropertyDescriptionText, "descriptionText");
    assert_eq!(MPMediaPlaylistPropertyPersistentID, "persistentID");
    assert_eq!(MPMediaPlaylistPropertyPlaylistAttributes, "playlistAttributes");
    assert_eq!(MPMediaPlaylistPropertyCloudGlobalID, "cloudGlobalID");
    assert_eq!(MPMediaPlaylistPropertySeedItems, "seedItems");
}
