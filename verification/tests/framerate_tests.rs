use trichloride::framerate::Framerate;

#[test]
fn ntsc_pair() {
    let f = Framerate::NTSC;
    assert_eq!(f.tpf(), 100);
    assert_eq!(f.timescale(), 2997);
}

#[test]
fn pal_pair() {
    let f = Framerate::PAL;
    assert_eq!(f.tpf(), 1000);
    assert_eq!(f.timescale(), 25000);
}

#[test]
fn twenty_four_pair() {
    let f = Framerate::TwentyFour;
    assert_eq!(f.tpf(), 1000);
    assert_eq!(f.timescale(), 24000);
}

#[test]
fn thirty_pair() {
    let f = Framerate::Thirty;
    assert_eq!(f.tpf(), 512);
    assert_eq!(f.timescale(), 15360);
}

#[test]
fn sixty_pair() {
    let f = Framerate::Sixty;
    assert_eq!(f.tpf(), 256);
    assert_eq!(f.timescale(), 15360);
}

#[test]
fn whole_timescale_is_rate_times_1000() {
    assert_eq!(Framerate::Whole(25).timescale(), 25_000);
    assert_eq!(Framerate::Whole(25).tpf(), 1000);
    assert_eq!(Framerate::Whole(120).timescale(), 120_000);
    assert_eq!(Framerate::Whole(1).timescale(), 1000);
}

#[test]
fn custom_pair_is_verbatim() {
    let f = Framerate::Custom { ticks_per_frame: 7, timescale: 93 };
    assert_eq!(f.tpf(), 7);
    assert_eq!(f.timescale(), 93);
}

#[test]
fn same_variant_same_pair() {
    // Querying the same variant twice always returns the same pair.
    let a = Framerate::NTSC;
    let b = Framerate::NTSC;
    assert_eq!(a.tpf(), b.tpf());
    assert_eq!(a.timescale(), b.timescale());
    let c = Framerate::Whole(30);
    let d = Framerate::Whole(30);
    assert_eq!(c.tpf(), d.tpf());
    assert_eq!(c.timescale(), d.timescale());
}
