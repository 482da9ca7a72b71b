use vstd::prelude::*;
use vstd::string::StringExecFns;

verus! {

/// The authorities (`host:port`) that tunnels may be opened to. Matching is
/// exact: no case folding, no default ports, no wildcards.
pub struct AllowList {
    entries: Vec<String>,
}

impl View for AllowList {
    type V = Seq<Seq<char>>;

    closed spec fn view(&self) -> Seq<Seq<char>> {
        self.entries@.map_values(|e: String| e@)
    }
}

/// The destination the proxy admits when nothing else is configured.
pub const DEFAULT_DESTINATION: &'static str = "api.giphy.com:443";

impl AllowList {
    /// Every entry is a non-empty authority.
    pub open spec fn wf(&self) -> bool {
        forall|i: int| 0 <= i < self@.len() ==> #[trigger] self@[i].len() > 0
    }

    /// An allow-list of exactly the given entries, or `None` when one of them
    /// is empty: an empty string names no destination.
    pub fn new(entries: Vec<String>) -> (r: Option<AllowList>)
        ensures
            match r {
                Some(list) => list.wf() && list@ == entries@.map_values(|e: String| e@),
                None => exists|i: int| 0 <= i < entries@.len() && (#[trigger] entries@[i])@.len() == 0,
            },
    {
        let mut i: usize = 0;
        while i < entries.len()
            invariant
                0 <= i <= entries.len(),
                forall|k: int| 0 <= k < i ==> (#[trigger] entries@[k])@.len() > 0,
            decreases entries.len() - i,
        {
            if entries[i].as_str().is_empty() {
                return None;
            }
            i = i + 1;
        }
        Some(AllowList { entries })
    }

    /// The allow-list that holds the default destination alone.
    pub fn permitted_destinations() -> (r: AllowList)
        ensures
            r.wf(),
            r@ == seq![DEFAULT_DESTINATION@],
    {
        proof {
            reveal_strlit("api.giphy.com:443");
        }
        let mut entries: Vec<String> = Vec::new();
        entries.push(String::from_str(DEFAULT_DESTINATION));
        let r = AllowList { entries };
        assert(r@ =~= seq![DEFAULT_DESTINATION@]);
        r
    }

    /// Whether `target` is byte for byte one of the entries.
    pub fn is_permitted(&self, target: &str) -> (r: bool)
        ensures
            r == self@.contains(target@),
    {
        let wanted = String::from_str(target);
        let mut i: usize = 0;
        while i < self.entries.len()
            invariant
                0 <= i <= self.entries.len(),
                wanted@ == target@,
                forall|k: int| 0 <= k < i ==> self@[k] != target@,
            decreases self.entries.len() - i,
        {
            if self.entries[i] == wanted {
                assert(self@[i as int] == target@);
                return true;
            }
            i = i + 1;
        }
        false
    }
}

/// Whether `url` is the default destination.
pub fn is_permitted_destination(url: &str) -> (r: bool)
    ensures
        r == (url@ == DEFAULT_DESTINATION@),
{
    let list = AllowList::permitted_destinations();
    let r = list.is_permitted(url);
    assert(list@[0] == DEFAULT_DESTINATION@);
    r
}

/// An allow-list admits a string exactly when it is byte for byte one of its
/// entries, and never admits the empty string.
pub proof fn lemma_permits_exactly_entries(list: AllowList, s: Seq<char>)
    requires
        list.wf(),
    ensures
        list@.contains(s) <==> exists|i: int| 0 <= i < list@.len() && list@[i] == s,
        !list@.contains(Seq::<char>::empty()),
{
    if list@.contains(Seq::<char>::empty()) {
        let i = choose|i: int| 0 <= i < list@.len() && list@[i] == Seq::<char>::empty();
        assert(list@[i].len() > 0);
    }
}

} // verus!
