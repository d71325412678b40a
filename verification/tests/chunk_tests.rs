use swish::build_chunks_array;
use swish::Chunk;

fn sizes(chunks: &[Chunk]) -> Vec<usize> {
    chunks.iter().map(|c| c.size).collect()
}

#[test]
fn plan_splits_hundred_into_three() {
    let plan = build_chunks_array(100, 40);
    assert_eq!(plan.len(), 3);
    assert_eq!(plan[0].index, 0);
    assert_eq!(plan[0].offset, 0);
    assert_eq!(plan[0].size, 40);
    assert_eq!(plan[1].index, 1);
    assert_eq!(plan[1].offset, 40);
    assert_eq!(plan[1].size, 40);
    assert_eq!(plan[2].index, 2);
    assert_eq!(plan[2].offset, 80);
    assert_eq!(plan[2].size, 20);
    // the derived final marker holds of the last chunk alone
    let finals: Vec<bool> = plan.iter().map(|c| c.index == plan.len() - 1).collect();
    assert_eq!(finals, vec![false, false, true]);
}

#[test]
fn plan_of_exact_multiple_is_single_chunk() {
    let plan = build_chunks_array(40, 40);
    assert_eq!(plan.len(), 1);
    assert_eq!(plan[0].index, 0);
    assert_eq!(plan[0].offset, 0);
    assert_eq!(plan[0].size, 40);
    assert!(plan[0].index == plan.len() - 1);
}

#[test]
fn plan_sizes_sum_to_total() {
    for (total, chunk) in [(0usize, 7usize), (1, 7), (6, 7), (7, 7), (8, 7), (100, 40), (1000, 1)]
    {
        let plan = build_chunks_array(total, chunk);
        let sum: usize = sizes(&plan).iter().sum();
        assert_eq!(sum, total);
        for (i, c) in plan.iter().enumerate() {
            assert_eq!(c.index, i);
            assert_eq!(c.offset, i * chunk);
        }
    }
}

#[test]
fn empty_input_still_yields_one_zero_chunk() {
    let plan = build_chunks_array(0, 52428800);
    assert_eq!(plan.len(), 1);
    assert_eq!(plan[0].offset, 0);
    assert_eq!(plan[0].size, 0);
}

#[test]
fn chunk_new_sets_fields() {
    let c = Chunk::new(3, 120, 40);
    assert_eq!(c.index, 3);
    assert_eq!(c.offset, 120);
    assert_eq!(c.size, 40);
}
