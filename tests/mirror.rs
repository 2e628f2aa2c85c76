use rendiation::mirror::{GPUItem, GPUPair};

struct CountingRenderer {
    created: usize,
    updated: usize,
}

struct FakeGpu {
    contents: Vec<u32>,
}

impl GPUItem<Vec<u32>, CountingRenderer> for FakeGpu {
    fn mirrors(&self, item: &Vec<u32>) -> bool {
        self.contents == *item
    }

    fn create_gpu(item: &Vec<u32>, renderer: &mut CountingRenderer) -> Self {
        renderer.created += 1;
        FakeGpu { contents: item.clone() }
    }

    fn update_gpu(&mut self, item: &Vec<u32>, renderer: &mut CountingRenderer) {
        renderer.updated += 1;
        self.contents = item.clone();
    }
}

#[test]
fn ensure_gpu_materializes_once() {
    let mut device = CountingRenderer { created: 0, updated: 0 };
    let mut pair: GPUPair<Vec<u32>, FakeGpu> = GPUPair::new(vec![1, 2, 3]);
    assert!(!pair.is_materialized());
    assert_eq!(pair.ensure_gpu(&mut device).contents, vec![1, 2, 3]);
    assert_eq!(pair.ensure_gpu(&mut device).contents, vec![1, 2, 3]);
    assert!(pair.is_materialized());
    assert_eq!(device.created, 1);
    assert_eq!(device.updated, 0);
}

#[test]
fn get_update_gpu_propagates_logical_change() {
    let mut device = CountingRenderer { created: 0, updated: 0 };
    let mut pair: GPUPair<Vec<u32>, FakeGpu> = GPUPair::new(vec![1, 2, 3]);
    pair.ensure_gpu(&mut device);
    pair.get_mut()[1] = 20;
    assert_eq!(pair.ensure_gpu(&mut device).contents, vec![1, 2, 3]);
    assert_eq!(pair.get_update_gpu(&mut device).contents, vec![1, 20, 3]);
    assert_eq!(pair.get(), &vec![1, 20, 3]);
    let snapshot = pair.get().clone();
    assert!(pair.ensure_gpu(&mut device).mirrors(&snapshot));
    assert_eq!(device.created, 1);
    assert_eq!(device.updated, 1);
}

#[test]
fn get_update_gpu_creates_when_absent() {
    let mut device = CountingRenderer { created: 0, updated: 0 };
    let mut pair: GPUPair<Vec<u32>, FakeGpu> = GPUPair::new(vec![7]);
    assert_eq!(pair.get_update_gpu(&mut device).contents, vec![7]);
    assert_eq!(device.created, 1);
    assert_eq!(device.updated, 0);
}
