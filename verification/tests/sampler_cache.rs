use graphics_core::sampler::{SamplerCache, SamplerDescriptor, SamplerHandle};
use graphics_core::types::{FilterMode, WrapMode};

fn desc(filter: FilterMode, wrap: WrapMode) -> SamplerDescriptor {
    SamplerDescriptor { filter, wrap }
}

#[test]
fn new_cache_is_empty() {
    let c = SamplerCache::new();
    assert_eq!(c.len(), 0);
    assert_eq!(c.descriptor(SamplerHandle { index: 0 }), None);
}

#[test]
fn same_descriptor_gives_same_sampler() {
    let mut c = SamplerCache::new();
    let a = c.get_or_insert(desc(FilterMode::Linear, WrapMode::Clamp));
    let b = c.get_or_insert(desc(FilterMode::Linear, WrapMode::Clamp));
    assert_eq!(a, b);
    assert_eq!(a, SamplerHandle { index: 0 });
    assert_eq!(c.len(), 1);
}

#[test]
fn distinct_descriptors_give_distinct_samplers() {
    let mut c = SamplerCache::new();
    let a = c.get_or_insert(desc(FilterMode::Linear, WrapMode::Clamp));
    let b = c.get_or_insert(desc(FilterMode::Nearest, WrapMode::Clamp));
    let d = c.get_or_insert(desc(FilterMode::Linear, WrapMode::Tile));
    assert_ne!(a, b);
    assert_ne!(a, d);
    assert_ne!(b, d);
    assert_eq!(c.len(), 3);
    assert_eq!(c.descriptor(a), Some(desc(FilterMode::Linear, WrapMode::Clamp)));
    assert_eq!(c.descriptor(b), Some(desc(FilterMode::Nearest, WrapMode::Clamp)));
    assert_eq!(c.descriptor(d), Some(desc(FilterMode::Linear, WrapMode::Tile)));
    assert_eq!(c.descriptor(SamplerHandle { index: 3 }), None);
}

#[test]
fn size_is_the_number_of_distinct_descriptors() {
    let mut c = SamplerCache::new();
    let requests = [
        desc(FilterMode::Linear, WrapMode::Clamp),
        desc(FilterMode::Nearest, WrapMode::Mirror),
        desc(FilterMode::Linear, WrapMode::Clamp),
        desc(FilterMode::Nearest, WrapMode::Border),
        desc(FilterMode::Nearest, WrapMode::Mirror),
        desc(FilterMode::Linear, WrapMode::Clamp),
    ];
    let handles: Vec<SamplerHandle> = requests.iter().map(|d| c.get_or_insert(*d)).collect();
    assert_eq!(c.len(), 3);
    let indices: Vec<usize> = handles.iter().map(|h| h.index).collect();
    assert_eq!(indices, vec![0, 1, 0, 2, 1, 0]);
}

#[test]
fn all_eight_combinations_fit() {
    let mut c = SamplerCache::new();
    let mut seen = Vec::new();
    for _ in 0..2 {
        for filter in [FilterMode::Linear, FilterMode::Nearest] {
            for wrap in [WrapMode::Tile, WrapMode::Mirror, WrapMode::Clamp, WrapMode::Border] {
                seen.push(c.get_or_insert(desc(filter, wrap)).index);
            }
        }
    }
    assert_eq!(c.len(), 8);
    assert_eq!(seen, vec![0, 1, 2, 3, 4, 5, 6, 7, 0, 1, 2, 3, 4, 5, 6, 7]);
}
