use touhou::prng::Prng;

#[test]
fn prng_first_values_from_seed_zero() {
    let mut prng = Prng::new(0);
    assert_eq!(prng.get_u16(), 50036);
    assert_eq!(prng.get_u16(), 49095);
    assert_eq!(prng.get_u16(), 4755);
}

#[test]
fn prng_u32_combines_two_draws() {
    let mut prng = Prng::new(0);
    assert_eq!(prng.get_u32(), 3279208391);
    assert_eq!(prng.get_u16(), 4755);
}

#[test]
fn prng_same_seed_same_stream() {
    let mut a = Prng::new(1234);
    let mut b = Prng::new(1234);
    for _ in 0..1000 {
        assert_eq!(a.get_u16(), b.get_u16());
    }
}
