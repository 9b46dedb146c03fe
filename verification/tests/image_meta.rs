use uploader::batch::Extent;
use uploader::image_meta::{
    match_kind, ImageInfo, Kind, Tiling, ViewKind, VIEW_CAPS_KIND_2D_ARRAY,
};

#[test]
fn extents_fill_missing_dimensions_with_one() {
    assert_eq!(
        Kind::D1(5, 2).extent(),
        Extent { width: 5, height: 1, depth: 1 }
    );
    assert_eq!(
        Kind::D2(8, 4, 6, 1).extent(),
        Extent { width: 8, height: 4, depth: 1 }
    );
    assert_eq!(
        Kind::D3(9, 2, 17).extent(),
        Extent { width: 9, height: 2, depth: 17 }
    );
}

#[test]
fn layer_counts() {
    assert_eq!(Kind::D1(5, 2).num_layers(), 2);
    assert_eq!(Kind::D2(8, 4, 6, 1).num_layers(), 6);
    assert_eq!(Kind::D3(9, 2, 17).num_layers(), 1);
}

#[test]
fn mip_level_counts() {
    assert_eq!(Kind::D2(1024, 512, 1, 1).num_levels(), 11);
    assert_eq!(Kind::D1(1, 1).num_levels(), 1);
    assert_eq!(Kind::D3(9, 2, 17).num_levels(), 5);
    // depth of a two-dimensional image is one, so the dominant
    // dimension never falls below one
    assert_eq!(Kind::D2(0, 0, 1, 1).num_levels(), 1);
}

#[test]
fn levels_fit_against_dominant_dimension() {
    let mut info = ImageInfo {
        kind: Kind::D2(16, 16, 1, 1),
        levels: 5,
        format: 37,
        tiling: Tiling::Optimal,
        view_caps: 0,
        usage: 0,
    };
    assert!(info.levels_fit());
    info.levels = 6;
    assert!(!info.levels_fit());
}

#[test]
fn view_kinds_match_image_kinds() {
    assert!(match_kind(Kind::D1(4, 1), ViewKind::D1, 0));
    assert!(match_kind(Kind::D1(4, 4), ViewKind::D1Array, 0));
    assert!(!match_kind(Kind::D1(4, 1), ViewKind::D2, 0));
    assert!(match_kind(Kind::D2(4, 4, 1, 1), ViewKind::D2, 0));
    assert!(match_kind(Kind::D2(4, 4, 6, 1), ViewKind::D2Array, 0));
    assert!(!match_kind(Kind::D2(4, 4, 1, 1), ViewKind::D3, 0));
    assert!(!match_kind(Kind::D2(4, 4, 6, 1), ViewKind::Cube, 0));
    assert!(match_kind(Kind::D3(4, 4, 4), ViewKind::D3, 0));
    assert!(!match_kind(Kind::D3(4, 4, 4), ViewKind::D2, 0));
    assert!(match_kind(
        Kind::D3(4, 4, 4),
        ViewKind::D2,
        VIEW_CAPS_KIND_2D_ARRAY
    ));
    assert!(match_kind(
        Kind::D3(4, 4, 4),
        ViewKind::D2Array,
        VIEW_CAPS_KIND_2D_ARRAY
    ));
    assert!(!match_kind(
        Kind::D3(4, 4, 4),
        ViewKind::D3,
        VIEW_CAPS_KIND_2D_ARRAY
    ));
}

#[test]
fn image_accessors_read_metadata() {
    let img = uploader::image_meta::Image {
        id: 11,
        info: ImageInfo {
            kind: Kind::D2(32, 8, 6, 1),
            levels: 3,
            format: 44,
            tiling: Tiling::Linear,
            view_caps: 0,
            usage: 9,
        },
    };
    assert_eq!(img.raw(), 11);
    assert_eq!(img.kind(), Kind::D2(32, 8, 6, 1));
    assert_eq!(img.format(), 44);
    assert_eq!(img.levels(), 3);
    assert_eq!(img.layers(), 6);
    assert_eq!(img.info().usage, 9);
}

#[test]
fn view_compatibility_check() {
    let img = uploader::image_meta::Image {
        id: 1,
        info: ImageInfo {
            kind: Kind::D3(8, 8, 8),
            levels: 1,
            format: 44,
            tiling: Tiling::Optimal,
            view_caps: VIEW_CAPS_KIND_2D_ARRAY,
            usage: 0,
        },
    };
    let view = uploader::image_meta::ImageViewInfo {
        view_kind: ViewKind::D2Array,
        format: 44,
        swizzle: 0,
        range: uploader::batch::SubresourceRange {
            aspects: 1,
            level_start: 0,
            level_end: 1,
            layer_start: 0,
            layer_end: 1,
        },
    };
    assert!(view.compatible_with(&img));
    let mut flat = img;
    flat.info.view_caps = 0;
    assert!(!view.compatible_with(&flat));
}
