use minrs::error::LoadError;
use minrs::grid::Stride;
use minrs::pipeline::Pipeline;
use minrs::sample::SampleBuffer;
use minrs::texture::{Dimensionality, TextureFormat, TextureInput};
use minrs::window::ReadBudget;

fn file_of(len: usize) -> Vec<u8> {
    (0..len).map(|i| (i % 256) as u8).collect()
}

#[test]
fn raw_line_reads_a_capped_window_of_bytes() {
    let way = Pipeline::raw_line();
    assert_eq!(way.budget, ReadBudget::Capped);
    assert_eq!(way.request.format, TextureFormat::Rgba8);
    assert_eq!(way.request.dimensionality, Dimensionality::One);
    assert_eq!(way.limit(640, 480), 8192);
    assert_eq!(way.limit(64, 64), 4096);
    let plan = way.run(Ok(file_of(10_000)), 640, 480).unwrap();
    assert_eq!(plan.spec.width, 8192);
    assert_eq!(plan.spec.height, None);
    match plan.data {
        TextureInput::Flat(SampleBuffer::Raw(bytes)) => assert_eq!(bytes, file_of(8192)),
        _ => panic!("the raw line did not keep raw bytes"),
    }
}

#[test]
fn depth_line_normalizes_a_capped_window() {
    let way = Pipeline::depth_line();
    assert_eq!(way.budget, ReadBudget::Capped);
    assert_eq!(way.request.format, TextureFormat::DepthF32);
    assert_eq!(way.request.dimensionality, Dimensionality::One);
    let plan = way.run(Ok(file_of(300)), 640, 480).unwrap();
    assert_eq!(plan.spec.width, 300);
    assert_eq!(plan.spec.height, None);
    match plan.data {
        TextureInput::Flat(SampleBuffer::Unit(samples)) => {
            assert_eq!(samples.len(), 300);
            assert_eq!(samples[255].fraction(), (255, 255));
            assert_eq!(samples[256].fraction(), (0, 255));
        }
        _ => panic!("the depth line did not normalize"),
    }
}

#[test]
fn sized_depth_grid_has_sixty_four_rows_on_a_full_read() {
    let way = Pipeline::sized_depth_grid();
    assert_eq!(way.request.stride, Stride::SixtyFourth);
    let plan = way.run(Ok(file_of(20_000)), 640, 480).unwrap();
    assert_eq!(plan.spec.width, 128);
    assert_eq!(plan.spec.height, Some(64));
    let plan = way.run(Ok(file_of(1000)), 640, 480).unwrap();
    assert_eq!(plan.spec.width, 15);
    assert_eq!(plan.spec.height, Some(66));
}

#[test]
fn framed_depth_grid_fills_the_frame() {
    let way = Pipeline::framed_depth_grid(40);
    assert_eq!(way.budget, ReadBudget::Framebuffer);
    assert_eq!(way.request.stride, Stride::Width(40));
    assert_eq!(way.limit(40, 30), 1200);
    let plan = way.run(Ok(file_of(5000)), 40, 30).unwrap();
    assert_eq!(plan.spec.width, 40);
    assert_eq!(plan.spec.height, Some(30));
    match plan.data {
        TextureInput::Grid(grid) => {
            let last = grid.row(29).unwrap();
            assert_eq!(last[39].level, (1199 % 256) as u8);
            assert!(grid.row(30).is_none());
        }
        TextureInput::Flat(_) => panic!("the framed grid stayed flat"),
    }
}

#[test]
fn framed_depth_grid_on_a_short_file_has_fewer_rows() {
    let way = Pipeline::framed_depth_grid(40);
    let plan = way.run(Ok(file_of(130)), 40, 30).unwrap();
    assert_eq!(plan.spec.width, 40);
    assert_eq!(plan.spec.height, Some(3));
}

#[test]
fn every_way_reports_a_failed_read() {
    let ways = [
        Pipeline::raw_line(),
        Pipeline::depth_line(),
        Pipeline::sized_depth_grid(),
        Pipeline::framed_depth_grid(8),
    ];
    for way in ways.iter() {
        let result = way.run(Err(String::from("not found")), 8, 8);
        assert_eq!(result.err(), Some(LoadError::Io(String::from("not found"))));
    }
}

#[test]
fn square_root_grids_are_nearly_square() {
    for len in 1usize..3000 {
        let side = Stride::SquareRoot.side(len);
        assert!(side > 0);
        assert!(side * side <= len && len < (side + 1) * (side + 1));
        let rows = len / side;
        assert!(side <= rows && rows <= side + 2);
    }
}

#[test]
fn sixty_fourth_grids_have_at_least_sixty_four_rows() {
    for len in 64usize..3000 {
        let side = Stride::SixtyFourth.side(len);
        assert_eq!(side, len / 64);
        assert!(len / side >= 64);
    }
}
