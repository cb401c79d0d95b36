use onscreen_ocr::icon_atlas::{parse_atlas_metadata, find_icon_atlas_pos, get_icon_atlas_pos};

const ATLAS: &str = "copy.png 0 0\ncopy-hover.png 80 0\r\nclose.png\t160  80\nbroken.png 1\nbad.png x 2\n+plus.png +3 4\nhuge.png 1 4294967296\n";

#[test]
fn finds_first_line_with_prefix() {
    assert_eq!(get_icon_atlas_pos(ATLAS, "copy.png"), (0, 0));
    assert_eq!(get_icon_atlas_pos(ATLAS, "copy-hover.png"), (80, 0));
    assert_eq!(get_icon_atlas_pos(ATLAS, "copy"), (0, 0));
}

#[test]
fn splits_on_any_whitespace() {
    assert_eq!(get_icon_atlas_pos(ATLAS, "close.png"), (160, 80));
}

#[test]
fn accepts_plus_sign() {
    assert_eq!(find_icon_atlas_pos(ATLAS, "+plus.png"), Some((3, 4)));
}

#[test]
fn missing_or_malformed_entries_give_none() {
    assert_eq!(find_icon_atlas_pos(ATLAS, "nothing.png"), None);
    assert_eq!(find_icon_atlas_pos(ATLAS, "broken.png"), None);
    assert_eq!(find_icon_atlas_pos(ATLAS, "bad.png"), None);
    assert_eq!(find_icon_atlas_pos(ATLAS, "huge.png"), None);
    assert_eq!(find_icon_atlas_pos("", ""), None);
}

#[test]
fn agrees_with_std_line_and_word_splitting() {
    let lookup = |id: &str| -> Option<(u32, u32)> {
        let line = ATLAS.lines().find(|line| line.starts_with(id))?;
        let pos: Vec<&str> = line.split_whitespace().skip(1).collect();
        if pos.len() < 2 {
            return None;
        }
        Some((pos[0].parse().ok()?, pos[1].parse().ok()?))
    };
    for id in ["copy.png", "copy-hover.png", "close.png", "broken.png", "bad.png", "+plus.png", "huge.png", "x", ""] {
        assert_eq!(find_icon_atlas_pos(ATLAS, id), lookup(id), "id {:?}", id);
    }
}

#[test]
fn atlas_metadata_reads_first_line() {
    let atlas = "64 4 3\r\ncopy.png 0 0\n";
    assert_eq!(parse_atlas_metadata(atlas), Some((64, 256, 192)));
}

#[test]
fn atlas_metadata_rejects_short_or_bad_first_line() {
    assert_eq!(parse_atlas_metadata(""), None);
    assert_eq!(parse_atlas_metadata("64 4\n1 2 3"), None);
    assert_eq!(parse_atlas_metadata("64 x 3"), None);
    assert_eq!(parse_atlas_metadata("\n64 4 3"), None);
}

#[test]
fn atlas_metadata_rejects_overflowing_size() {
    assert_eq!(parse_atlas_metadata("65536 65536 1"), None);
    assert_eq!(parse_atlas_metadata("65536 65535 1"), Some((65536, 4294901760, 65536)));
}
