use snake_core::fruit::Fruit;
use snake_core::grid::GRID_SIZE;

#[test]
fn a_fruit_sits_where_it_is_put() {
    let f = Fruit::new(10, 10);
    assert_eq!(f.pos.x, 10);
    assert_eq!(f.pos.y, 10);
}

#[test]
fn a_regenerated_fruit_lands_on_the_grid() {
    let mut f = Fruit::new(0, 0);
    for _ in 0..50 {
        f.regenerate();
        assert!(0 <= f.pos.x && f.pos.x < GRID_SIZE);
        assert!(0 <= f.pos.y && f.pos.y < GRID_SIZE);
    }
}
