use std::io::Cursor;

use termrain::area::{areas, nearest_area};
use termrain::geo::{cities, cities_in, polylines, GeoBox, Layer, MapData, Shape};
use termrain::jma::{nowcast_tile_url, pale_tile_url};
use termrain::nowcast::{needs_forecast, select_frame, sorted_by_validtime, str_lt, FrameError, TargetTime};
use termrain::palette::{
    canvas_bucket, canvas_legend, legend_stops, nowcast_color_to_mmh, precipitation_color, rain_to_yahoo,
};
use termrain::raster::{
    decode_tile, draw_cross, draw_legend_bar, fill_rect, filled_pixels, map_dots_from_response,
    map_image_from_response, pixel_at, rain_grid_from_response, rain_image_from_response, DecodeError,
    GRID_SIDE,
};
use termrain::rainviewer::{rainviewer_frame, rainviewer_tile_url, rainviewer_zoom, tiles_in_range};
use termrain::tiles::{neighbor_tiles, zoom_levels};

fn png_of(w: u32, h: u32, px: [u8; 4]) -> Vec<u8> {
    let img = image::RgbaImage::from_pixel(w, h, image::Rgba(px));
    let mut buf = Cursor::new(Vec::new());
    img.write_to(&mut buf, image::ImageFormat::Png).unwrap();
    buf.into_inner()
}

fn frame(b: &str, v: &str) -> TargetTime {
    TargetTime { basetime: String::from(b), validtime: String::from(v) }
}

#[test]
fn overlay_gradient_steps() {
    assert_eq!(rain_to_yahoo(0), None);
    assert_eq!(rain_to_yahoo(1), Some((200, 230, 255, 170)));
    assert_eq!(rain_to_yahoo(9), Some((200, 230, 255, 170)));
    assert_eq!(rain_to_yahoo(10), Some((160, 210, 250, 190)));
    assert_eq!(rain_to_yahoo(500), Some((220, 40, 70, 250)));
    assert_eq!(rain_to_yahoo(800), Some((120, 30, 130, 250)));
    let stops = legend_stops();
    assert_eq!(stops.len(), 14);
    assert_eq!(stops[0].0, "1");
    assert_eq!(stops[13].0, "80+");
}

#[test]
fn overlay_alpha_grows() {
    let mut last = 0u8;
    for t in [1u32, 10, 20, 40, 80, 120, 160, 240, 320, 400, 480, 560, 640, 800, 5000] {
        let a = rain_to_yahoo(t).unwrap().3;
        assert!(a >= last);
        last = a;
    }
}

#[test]
fn canvas_colours_and_buckets() {
    assert_eq!(precipitation_color(0), None);
    assert_eq!(precipitation_color(1), Some((170, 220, 240)));
    assert_eq!(precipitation_color(150), Some((250, 240, 80)));
    assert_eq!(precipitation_color(900), Some((120, 30, 130)));
    assert_eq!(canvas_bucket(0), None);
    assert_eq!(canvas_bucket(1), Some(0));
    assert_eq!(canvas_bucket(49), Some(1));
    assert_eq!(canvas_bucket(50), Some(2));
    assert_eq!(canvas_bucket(799), Some(6));
    assert_eq!(canvas_bucket(12345), Some(7));
    let legend = canvas_legend();
    for (t, i) in [(5u32, 0usize), (30, 1), (70, 2), (150, 3), (250, 4), (400, 5), (600, 6), (1000, 7)] {
        assert_eq!(canvas_bucket(t), Some(i));
        assert_eq!(precipitation_color(t), Some(legend[i].1));
    }
}

#[test]
fn nowcast_palette_lookup() {
    assert_eq!(nowcast_color_to_mmh(33, 140, 254, 255), 50);
    assert_eq!(nowcast_color_to_mmh(250, 245, 0, 255), 200);
    assert_eq!(nowcast_color_to_mmh(130, 0, 70, 255), 1000);
    assert_eq!(nowcast_color_to_mmh(33, 140, 254, 10), 0);
    assert_eq!(nowcast_color_to_mmh(0, 0, 0, 255), 0);
    assert_eq!(nowcast_color_to_mmh(240, 240, 250, 255), 10);
    assert_eq!(nowcast_color_to_mmh(200, 242, 255, 255), 10);
    assert_eq!(nowcast_color_to_mmh(0, 250, 245, 255), 100);
    assert_eq!(nowcast_color_to_mmh(255, 40, 0, 255), 500);
    assert_eq!(nowcast_color_to_mmh(180, 0, 104, 255), 800);
    assert_eq!(nowcast_color_to_mmh(140, 220, 60, 255), 100);
}

#[test]
fn decode_and_reduce_tiles() {
    let png = png_of(256, 256, [33, 140, 254, 255]);
    let img = decode_tile(&png).unwrap();
    assert_eq!((img.width, img.height), (256, 256));
    assert_eq!(pixel_at(&img, 10, 20), (33, 140, 254, 255));
    let grid = rain_grid_from_response(true, &png).unwrap();
    assert_eq!(grid.len(), GRID_SIDE);
    assert!(grid.iter().all(|r| r.len() == GRID_SIDE && r.iter().all(|&v| v == 50)));
    assert_eq!(decode_tile(b"not an image").err(), Some(DecodeError::Undecodable));
    assert_eq!(rain_grid_from_response(true, b"junk").err(), Some(DecodeError::Undecodable));
    let dry = rain_grid_from_response(false, b"").unwrap();
    assert!(dry.iter().all(|r| r.iter().all(|&v| v == 0)));
}

#[test]
fn map_dots_from_tiles() {
    let dark = png_of(256, 256, [20, 20, 20, 255]);
    let dots = map_dots_from_response(true, &dark).unwrap();
    assert!(dots.iter().all(|r| r.iter().all(|&d| d)));
    let light = png_of(256, 256, [250, 250, 250, 255]);
    let dots = map_dots_from_response(true, &light).unwrap();
    assert!(dots.iter().all(|r| r.iter().all(|&d| !d)));
    let none = map_dots_from_response(false, b"").unwrap();
    assert_eq!(none.len(), 128);
    assert!(none.iter().all(|r| r.iter().all(|&d| !d)));
}

#[test]
fn placeholder_images() {
    let rain = rain_image_from_response(false, b"").unwrap();
    assert_eq!((rain.width, rain.height), (256, 256));
    assert_eq!(pixel_at(&rain, 255, 255), (0, 0, 0, 0));
    let map = map_image_from_response(false, b"").unwrap();
    assert_eq!(pixel_at(&map, 0, 0), (240, 240, 240, 255));
    let png = png_of(4, 3, [1, 2, 3, 4]);
    let got = map_image_from_response(true, &png).unwrap();
    assert_eq!((got.width, got.height), (4, 3));
    assert_eq!(pixel_at(&got, 3, 2), (1, 2, 3, 4));
}

#[test]
fn drawing_marks() {
    let mut img = filled_pixels(9, 9, (0, 0, 0, 0));
    draw_cross(&mut img, 4, 4, 2, (255, 0, 0, 255));
    assert_eq!(pixel_at(&img, 4, 4), (255, 0, 0, 255));
    assert_eq!(pixel_at(&img, 2, 4), (255, 0, 0, 255));
    assert_eq!(pixel_at(&img, 4, 6), (255, 0, 0, 255));
    assert_eq!(pixel_at(&img, 1, 4), (0, 0, 0, 0));
    assert_eq!(pixel_at(&img, 5, 5), (0, 0, 0, 0));
    let mut edge = filled_pixels(5, 5, (0, 0, 0, 0));
    draw_cross(&mut edge, -1, 2, 2, (9, 9, 9, 9));
    assert_eq!(pixel_at(&edge, 0, 2), (9, 9, 9, 9));
    assert_eq!(pixel_at(&edge, 2, 2), (0, 0, 0, 0));
    let mut none = filled_pixels(5, 5, (0, 0, 0, 0));
    draw_cross(&mut none, 2, 2, -1, (9, 9, 9, 9));
    assert_eq!(pixel_at(&none, 2, 2), (0, 0, 0, 0));
    let mut r = filled_pixels(6, 6, (0, 0, 0, 0));
    fill_rect(&mut r, 4, 4, 5, 5, (7, 7, 7, 7));
    assert_eq!(pixel_at(&r, 5, 5), (7, 7, 7, 7));
    assert_eq!(pixel_at(&r, 3, 5), (0, 0, 0, 0));
}

#[test]
fn legend_bar_on_image() {
    let mut img = filled_pixels(300, 100, (0, 0, 0, 255));
    draw_legend_bar(&mut img, 10, 10);
    // bar rows 86..96, 20 px per step from x = 10
    assert_eq!(pixel_at(&img, 15, 90), (200, 230, 255, 230));
    assert_eq!(pixel_at(&img, 30, 90), (255, 255, 255, 255));
    assert_eq!(pixel_at(&img, 35, 90), (160, 210, 250, 230));
    assert_eq!(pixel_at(&img, 15, 85), (255, 255, 255, 200));
    assert_eq!(pixel_at(&img, 5, 90), (0, 0, 0, 255));
    assert_eq!(pixel_at(&img, 15, 50), (0, 0, 0, 255));
}

#[test]
fn frames_by_offset() {
    let past = vec![frame("b3", "v3"), frame("b2", "v2"), frame("b1", "v1")];
    let fc = vec![frame("b3", "20260608071000"), frame("b3", "20260608070500"), frame("b3", "20260608071500")];
    assert_eq!(select_frame(&past, &fc, 0), Ok((String::from("b3"), String::from("v3"))));
    assert_eq!(select_frame(&past, &fc, -1), Ok((String::from("b2"), String::from("v2"))));
    assert_eq!(select_frame(&past, &fc, -9), Ok((String::from("b1"), String::from("v1"))));
    assert_eq!(select_frame(&past, &fc, 1), Ok((String::from("b3"), String::from("20260608070500"))));
    assert_eq!(select_frame(&past, &fc, 2), Ok((String::from("b3"), String::from("20260608071000"))));
    assert_eq!(select_frame(&past, &fc, 12), Ok((String::from("b3"), String::from("20260608071500"))));
    assert_eq!(select_frame(&past, &Vec::new(), 3), Ok((String::from("b3"), String::from("v3"))));
    assert_eq!(select_frame(&Vec::new(), &fc, 0), Err(FrameError::NoFrames));
    assert!(needs_forecast(1));
    assert!(!needs_forecast(0));
}

#[test]
fn stable_sort_of_frames() {
    let fc = vec![frame("a", "3"), frame("b", "1"), frame("c", "3"), frame("d", "2")];
    assert_eq!(sorted_by_validtime(&fc), vec![1, 3, 0, 2]);
    assert!(str_lt("20260608", "20260609"));
    assert!(!str_lt("x", "x"));
    assert!(str_lt("", "a"));
}

#[test]
fn tile_addresses() {
    assert_eq!(
        nowcast_tile_url("20260608070000", "none", "20260608071000", 10, 906, 403),
        "https://www.jma.go.jp/bosai/jmatile/data/nowc/20260608070000/none/20260608071000/surf/hrpns/10/906/403.png"
    );
    assert_eq!(pale_tile_url(10, 909, 403), "https://cyberjapandata.gsi.go.jp/xyz/pale/10/909/403.png");
}

#[test]
fn zoom_and_neighbours() {
    assert_eq!(zoom_levels(11), (11, 10));
    assert_eq!(zoom_levels(14), (13, 10));
    assert_eq!(zoom_levels(6), (6, 6));
    let n = neighbor_tiles(5, 7);
    assert_eq!(n.len(), 9);
    assert_eq!(n[0], ((-1, -1), (4, 6)));
    assert_eq!(n[4], ((0, 0), (5, 7)));
    assert_eq!(n[8], ((1, 1), (6, 8)));
    let corner = neighbor_tiles(0, 0);
    assert_eq!(corner, vec![((0, 0), (0, 0)), ((1, 0), (1, 0)), ((0, 1), (0, 1)), ((1, 1), (1, 1))]);
}

#[test]
fn rainviewer_frames_and_tiles() {
    assert_eq!(rainviewer_frame(13, 0), Some(12));
    assert_eq!(rainviewer_frame(13, -3), Some(9));
    assert_eq!(rainviewer_frame(13, -20), Some(0));
    assert_eq!(rainviewer_frame(13, 4), Some(12));
    assert_eq!(rainviewer_frame(0, 0), None);
    assert_eq!(rainviewer_zoom(11), 7);
    assert_eq!(rainviewer_zoom(6), 6);
    assert_eq!(
        rainviewer_tile_url("https://tilecache.rainviewer.com", "/v2/radar/1700000000", 7, 113, 50),
        "https://tilecache.rainviewer.com/v2/radar/1700000000/256/7/113/50/2/1_1.png"
    );
    assert_eq!(tiles_in_range(3, 5, 4, 6), vec![(3, 5), (4, 5), (3, 6), (4, 6)]);
    assert_eq!(tiles_in_range(3, 5, 3, 5), vec![(3, 5)]);
    assert!(tiles_in_range(4, 5, 3, 5).is_empty());
}

#[test]
fn nearest_office() {
    assert_eq!(areas().len(), 13);
    assert_eq!(nearest_area(35_681_200, 139_767_100).office, "130000");
    assert_eq!(nearest_area(34_826_500, 135_471_700).name, "大阪");
    assert_eq!(nearest_area(26_000_000, 127_000_000).name, "那覇");
    assert_eq!(nearest_area(48_856_600, 2_352_200).name, "那覇");
    let far = nearest_area(i64::MAX, i64::MIN);
    assert!(areas().iter().any(|e| e.office == far.office));
}

#[test]
fn cities_inside_view() {
    assert_eq!(cities().len(), 35);
    let kansai = GeoBox { lat_min: 34_500_000, lon_min: 135_000_000, lat_max: 35_100_000, lon_max: 136_000_000 };
    let names: Vec<&str> = cities_in(kansai).iter().map(|c| c.name).collect();
    assert_eq!(names, vec!["京都", "大阪", "神戸"]);
    let empty = GeoBox { lat_min: 0, lon_min: 0, lat_max: 1, lon_max: 1 };
    assert!(cities_in(empty).is_empty());
}

#[test]
fn boundary_segments() {
    let data = MapData {
        coastlines: vec![vec![(10, 10), (20, 20), (30, 30)], vec![(100, 100), (110, 110)]],
        prefectures: vec![],
        municipalities: vec![vec![(0, 0)]],
    };
    let b = GeoBox { lat_min: 15, lon_min: 15, lat_max: 25, lon_max: 25 };
    assert_eq!(data.segments_for(Layer::Coast, b), vec![(10, 10, 20, 20), (20, 20, 30, 30)]);
    assert!(data.segments_for(Layer::Prefecture, b).is_empty());
    let all = GeoBox { lat_min: -1, lon_min: -1, lat_max: 1, lon_max: 1 };
    assert!(data.segments_for(Layer::Municipality, all).is_empty());
    assert!(MapData::empty().segments_for(Layer::Coast, all).is_empty());
}

#[test]
fn geometry_lines() {
    let doc = vec![
        Shape::Point,
        Shape::LineString(vec![vec![1, 2], vec![3], vec![5, 6, 7]]),
        Shape::Polygon(vec![vec![vec![0, 0], vec![1, 0], vec![1, 1]], vec![vec![9, 9]]]),
        Shape::Collection(vec![Shape::MultiLineString(vec![vec![vec![4, 4], vec![5, 5]]])]),
        Shape::MultiPolygon(vec![vec![vec![vec![7, 7], vec![8, 8]]]]),
    ];
    let lines = polylines(&doc);
    assert_eq!(
        lines,
        vec![
            vec![(1, 2), (5, 6)],
            vec![(0, 0), (1, 0), (1, 1)],
            vec![(4, 4), (5, 5)],
            vec![(7, 7), (8, 8)],
        ]
    );
}
