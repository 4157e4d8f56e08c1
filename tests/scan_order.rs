use raytrace::raster::Raster;

#[test]
fn grid_needs_two_rows_and_columns() {
    assert!(Raster::new(1, 5).is_none());
    assert!(Raster::new(5, 1).is_none());
    assert!(Raster::new(0, 0).is_none());
    assert!(Raster::new(2, 2).is_some());
}

#[test]
fn default_image_grid() {
    let g = Raster::new(400, 225).unwrap();
    assert_eq!(g.width(), 400);
    assert_eq!(g.height(), 225);
    assert_eq!(g.pixel_count(), 90000);
}

#[test]
fn first_pixel_emitted_is_top_left() {
    let g = Raster::new(400, 225).unwrap();
    assert_eq!(g.pixel_at(0), (0, 224));
    assert_eq!(g.pixel_at(399), (399, 224));
    assert_eq!(g.pixel_at(400), (0, 223));
    assert_eq!(g.pixel_at(89999), (399, 0));
}

#[test]
fn emission_place_of_corners() {
    let g = Raster::new(400, 225).unwrap();
    assert_eq!(g.emitted_at(0, 224), 0);
    assert_eq!(g.emitted_at(399, 0), 89999);
    assert_eq!(g.emitted_at(5, 223), 405);
}

#[test]
fn scan_visits_each_pixel_once() {
    let g = Raster::new(7, 4).unwrap();
    let mut seen = vec![false; 28];
    for k in 0..g.pixel_count() {
        let (i, j) = g.pixel_at(k);
        assert!(i < 7 && j < 4);
        assert_eq!(g.emitted_at(i, j), k);
        let slot = (j * 7 + i) as usize;
        assert!(!seen[slot]);
        seen[slot] = true;
    }
    assert!(seen.iter().all(|s| *s));
}
