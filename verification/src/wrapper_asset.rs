//! An asset that stands in for another one.

use vstd::prelude::*;
use vstd::string::StringExecFns;

verus! {

/// An asset that replaces the content of another asset and still lets that
/// asset be referred to. Its path is `wrapper_name` below the path of the
/// asset that it wraps.
#[derive(Clone, Debug, PartialEq, Eq)]
pub struct WrapperAsset {
    /// Path of the asset that is wrapped.
    pub asset: String,
    pub wrapper_name: String,
    /// The content; it can refer to the wrapped asset as `.`.
    pub content: String,
}

impl WrapperAsset {
    pub fn new(asset: &str, wrapper_name: &str, content: &str) -> (r: WrapperAsset)
        ensures
            r.asset@ == asset@,
            r.wrapper_name@ == wrapper_name@,
            r.content@ == content@,
    {
        WrapperAsset {
            asset: String::from_str(asset),
            wrapper_name: String::from_str(wrapper_name),
            content: String::from_str(content),
        }
    }

    /// The path of the wrapper: that of the wrapped asset, a slash, and the
    /// wrapper's name.
    pub open spec fn spec_path(&self) -> Seq<char> {
        self.asset@ + seq!['/'] + self.wrapper_name@
    }

    pub fn path(&self) -> (r: String)
        ensures
            r@ == self.spec_path(),
    {
        proof {
            reveal_strlit("/");
        }
        let mut path = self.asset.clone();
        path.append("/");
        path.append(self.wrapper_name.as_str());
        assert(path@ =~= self.spec_path());
        path
    }

    /// The content of the wrapper, not that of the wrapped asset.
    pub fn content(&self) -> (r: &String)
        ensures
            *r == self.content,
    {
        &self.content
    }

    /// The wrapper refers to no other asset.
    pub fn references(&self) -> (r: Vec<String>)
        ensures
            r@.len() == 0,
    {
        Vec::new()
    }
}

} // verus!
