use blackbird::config::{AlbumArtProtocol, TerminalLayout};

#[test]
fn config_defaults_show_inline_lyrics_off() {
    let layout = TerminalLayout::default_layout();
    assert!(!layout.show_inline_lyrics);
}

#[test]
fn default_album_art_protocol_is_auto() {
    let protocol = AlbumArtProtocol::default_protocol();
    assert_eq!(protocol, AlbumArtProtocol::Auto);
    assert_ne!(protocol, AlbumArtProtocol::Halfblock);
    assert_ne!(protocol, AlbumArtProtocol::Image);
    assert_eq!(TerminalLayout::default_layout().album_art_protocol, AlbumArtProtocol::Auto);
}
