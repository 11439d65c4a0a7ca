use admin_console::helpers::{display_page, total_pages};

#[test]
fn no_items_make_one_page() {
    assert_eq!(total_pages(0, 1), 1);
    assert_eq!(total_pages(0, 20), 1);
    assert_eq!(total_pages(0, u32::MAX), 1);
}

#[test]
fn zero_page_size_counts_as_one() {
    for n in [0usize, 1, 2, 19, 20, 21, 1000] {
        assert_eq!(total_pages(n, 0), total_pages(n, 1));
    }
    assert_eq!(total_pages(7, 0), 7);
}

#[test]
fn page_count_is_the_ceiling() {
    assert_eq!(total_pages(1, 20), 1);
    assert_eq!(total_pages(19, 20), 1);
    assert_eq!(total_pages(20, 20), 1);
    assert_eq!(total_pages(21, 20), 2);
    assert_eq!(total_pages(40, 20), 2);
    assert_eq!(total_pages(41, 20), 3);
    assert_eq!(total_pages(100, 50), 2);
    assert_eq!(total_pages(101, 50), 3);
    assert_eq!(total_pages(5, 1), 5);
}

#[test]
fn page_count_agrees_with_a_plain_ceiling() {
    for n in 1usize..200 {
        for p in 1u32..30 {
            let expected = (n as u64 + p as u64 - 1) / p as u64;
            assert_eq!(total_pages(n, p) as u64, expected, "n = {}, p = {}", n, p);
        }
    }
}

#[test]
fn page_size_larger_than_the_count_gives_one_page() {
    assert_eq!(total_pages(3, u32::MAX), 1);
    assert_eq!(total_pages(u32::MAX as usize, u32::MAX), 1);
}

#[test]
fn largest_count_that_fits_is_exact() {
    assert_eq!(total_pages(u32::MAX as usize, 1), u32::MAX);
    assert_eq!(total_pages(u32::MAX as usize, 2), 2_147_483_648);
}

#[test]
fn count_beyond_u32_is_capped() {
    if usize::BITS > 32 {
        let big = (u32::MAX as u64 + 1) as usize;
        assert_eq!(total_pages(big, 1), u32::MAX);
        assert_eq!(total_pages(usize::MAX, 1), u32::MAX);
        assert_eq!(total_pages(usize::MAX, 0), u32::MAX);
        assert_eq!(total_pages(big, 2), 2_147_483_648);
    }
}

#[test]
fn pages_are_shown_from_one() {
    assert_eq!(display_page(0), 1);
    assert_eq!(display_page(1), 2);
    assert_eq!(display_page(u32::MAX), 4_294_967_296);
}
