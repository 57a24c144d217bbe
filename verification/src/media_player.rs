pub mod media_playlist;
