#[allow(unused_imports)]
use atra::depth::DepthDescriptor;

#[test]
fn can_extract() {}
