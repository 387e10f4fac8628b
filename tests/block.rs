use reflink_copy::block::{split_request, MAX_BLOCK_LEN};
use reflink_copy::{reflink_block, BlockRange, Error, ReflinkBlockBuilder};

const GIB: u64 = 1024 * 1024 * 1024;

fn total(bs: &[BlockRange]) -> u64 {
    bs.iter().map(|b| b.length).sum()
}

#[test]
fn one_call_without_cluster_size() {
    let bs = split_request(10, 20, 5 * GIB, None);
    assert_eq!(bs, vec![BlockRange { from_offset: 10, to_offset: 20, length: 5 * GIB }]);
}

#[test]
fn one_call_below_limit() {
    let bs = split_request(0, 4096, 3 * 4096, Some(4096));
    assert_eq!(bs, vec![BlockRange { from_offset: 0, to_offset: 4096, length: 3 * 4096 }]);
    let bs = split_request(0, 0, MAX_BLOCK_LEN - 1, Some(4096));
    assert_eq!(bs.len(), 1);
}

#[test]
fn split_at_limit() {
    let chunk = 4 * GIB - 4096;
    let bs = split_request(0, 0, MAX_BLOCK_LEN, Some(4096));
    assert_eq!(
        bs,
        vec![
            BlockRange { from_offset: 0, to_offset: 0, length: chunk },
            BlockRange { from_offset: chunk, to_offset: chunk, length: 4096 },
        ]
    );
}

#[test]
fn split_large_request() {
    let c = 65536;
    let chunk = 4 * GIB - c;
    let len = 10 * GIB + 123;
    let bs = split_request(7, 1000, len, Some(c));
    assert_eq!(bs.len(), 3);
    assert_eq!(total(&bs), len);
    assert_eq!(bs[0], BlockRange { from_offset: 7, to_offset: 1000, length: chunk });
    assert_eq!(bs[1], BlockRange { from_offset: 7 + chunk, to_offset: 1000 + chunk, length: chunk });
    assert_eq!(
        bs[2],
        BlockRange { from_offset: 7 + 2 * chunk, to_offset: 1000 + 2 * chunk, length: len - 2 * chunk }
    );
    for b in &bs[..bs.len() - 1] {
        assert_eq!(b.length % c, 0);
        assert!(b.length < MAX_BLOCK_LEN);
    }
}

#[test]
fn split_exact_multiple_of_chunk() {
    let chunk = 4 * GIB - 4096;
    let bs = split_request(0, 0, 2 * chunk, Some(4096));
    assert_eq!(bs.len(), 2);
    assert_eq!(bs[0].length, chunk);
    assert_eq!(bs[1].length, chunk);
}

#[test]
fn split_odd_cluster_size() {
    let c = 3000;
    let chunk = (MAX_BLOCK_LEN - 1) / c * c;
    let bs = split_request(0, 0, 5 * GIB, Some(c));
    assert_eq!(bs[0].length, chunk);
    assert_eq!(bs[0].length % c, 0);
    assert_eq!(total(&bs), 5 * GIB);
}

#[test]
fn cluster_size_beyond_limit_is_one_call() {
    let bs = split_request(0, 0, 8 * GIB, Some(MAX_BLOCK_LEN));
    assert_eq!(bs.len(), 1);
}

#[test]
fn builder_sets_fields() {
    let (a, b) = (1u8, 2u8);
    let builder = ReflinkBlockBuilder::new()
        .from(&a)
        .from_offset(4096)
        .to(&b)
        .to_offset(8192)
        .src_length(5 * GIB)
        .cluster_size(4096);
    let bs = builder.sub_blocks();
    assert_eq!(bs.len(), 2);
    assert_eq!(bs[0], BlockRange { from_offset: 4096, to_offset: 8192, length: 4 * GIB - 4096 });
    assert_eq!(total(&bs), 5 * GIB);
    assert_eq!(builder.reflink_block(), Err(Error::NotImplemented));
}

#[test]
fn builder_default_is_empty() {
    let (a, b) = (1u8, 2u8);
    let builder: ReflinkBlockBuilder<&u8> = ReflinkBlockBuilder::default();
    let bs = builder.from(&a).to(&b).src_length(10).sub_blocks();
    assert_eq!(bs, vec![BlockRange { from_offset: 0, to_offset: 0, length: 10 }]);
}

#[test]
fn block_clone_not_implemented() {
    let (a, b) = (1u8, 2u8);
    assert_eq!(reflink_block(&a, 0, &b, 0, 4096), Err(Error::NotImplemented));
}
