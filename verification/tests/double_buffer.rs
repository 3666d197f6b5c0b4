use smoke_sim::ping_pong::{Half, PingPong};
use smoke_sim::texture::{AddressMode, ChannelFormat, FilterMode, SamplerDesc, Texture};

fn field_buffer() -> Texture {
    Texture::create_compute_texture(64, ChannelFormat::Rgba16Float).unwrap()
}

#[test]
fn fresh_double_buffer_reads_a() {
    let pp = PingPong::new(field_buffer(), field_buffer());
    assert_eq!(pp.current_read_half(), Half::A);
}

#[test]
fn read_is_idempotent_without_swap() {
    let pp = PingPong::new(field_buffer(), field_buffer());
    let first = pp.current_read_half();
    let second = pp.current_read_half();
    assert_eq!(first, second);
    assert_eq!(*pp.get_read(), *pp.get_read());
}

#[test]
fn read_half_alternates_with_swaps() {
    let mut pp = PingPong::new(field_buffer(), field_buffer());
    for i in 0..10 {
        let expected = if i % 2 == 0 { Half::A } else { Half::B };
        assert_eq!(pp.current_read_half(), expected);
        pp.swap();
    }
}

#[test]
fn read_and_write_are_distinct_and_ordered() {
    let mut pp = PingPong::new(field_buffer(), field_buffer());
    let (read, write) = pp.get_read_and_write();
    assert_eq!(*read, field_buffer());
    assert_eq!(*write, field_buffer());
    assert_eq!(pp.current_read_half(), Half::A);
    pp.swap();
    assert_eq!(pp.current_read_half(), Half::B);
    pp.swap();
    assert_eq!(pp.current_read_half(), Half::A);
}

#[test]
fn sampler_is_linear_clamped() {
    let pp = PingPong::new(field_buffer(), field_buffer());
    let expected = SamplerDesc { filter: FilterMode::Linear, address: AddressMode::ClampToEdge };
    assert_eq!(*pp.get_sampler(), expected);
}
