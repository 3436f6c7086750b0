//! The RFID tags known to the box and the folder each one selects.
use vstd::prelude::*;

verus! {

/// Number of tags the box knows.
pub const NUMBER_TAGS: usize = 11;

/// Number of distinct folders; tags listed after these wrap around to folder 1 again.
pub const NUMBER_UNIQUE_TAGS: usize = 9;

/// The identifier of the known tag at position `i`.
///
/// Unique tags come first, in order of folder; the last two are development cards.
pub open spec fn spec_tag(i: int) -> Seq<u8> {
    if i == 0 {
        seq![0x2Eu8, 0x52u8, 0xE8u8, 0xC1u8]
    } else if i == 1 {
        seq![0xCEu8, 0x46u8, 0xE8u8, 0xC1u8]
    } else if i == 2 {
        seq![0x3Eu8, 0x43u8, 0xE8u8, 0xC1u8]
    } else if i == 3 {
        seq![0xBEu8, 0x56u8, 0xE8u8, 0xC1u8]
    } else if i == 4 {
        seq![0x0Eu8, 0x54u8, 0xE8u8, 0xC1u8]
    } else if i == 5 {
        seq![0xDEu8, 0x86u8, 0xE7u8, 0xC1u8]
    } else if i == 6 {
        seq![0x5Eu8, 0x56u8, 0xE8u8, 0xC1u8]
    } else if i == 7 {
        seq![0xCEu8, 0x54u8, 0xE8u8, 0xC1u8]
    } else if i == 8 {
        seq![0x1Eu8, 0x16u8, 0xE8u8, 0xC1u8]
    } else if i == 9 {
        seq![0x06u8, 0x99u8, 0xC1u8, 0x44u8]
    } else {
        seq![0x95u8, 0xE0u8, 0x7Du8, 0x6Cu8]
    }
}

/// The folder that the tag at position `i` selects: positions wrap around after the unique tags.
pub open spec fn spec_folder_of_position(i: int) -> int {
    i % (NUMBER_UNIQUE_TAGS as int) + 1
}

/// The identifier of the known tag at position `i`.
pub fn tag(i: usize) -> (t: [u8; 4])
    requires
        i < NUMBER_TAGS,
    ensures
        t@ == spec_tag(i as int),
{
    let t: [u8; 4] = if i == 0 {
        [0x2E, 0x52, 0xE8, 0xC1]
    } else if i == 1 {
        [0xCE, 0x46, 0xE8, 0xC1]
    } else if i == 2 {
        [0x3E, 0x43, 0xE8, 0xC1]
    } else if i == 3 {
        [0xBE, 0x56, 0xE8, 0xC1]
    } else if i == 4 {
        [0x0E, 0x54, 0xE8, 0xC1]
    } else if i == 5 {
        [0xDE, 0x86, 0xE7, 0xC1]
    } else if i == 6 {
        [0x5E, 0x56, 0xE8, 0xC1]
    } else if i == 7 {
        [0xCE, 0x54, 0xE8, 0xC1]
    } else if i == 8 {
        [0x1E, 0x16, 0xE8, 0xC1]
    } else if i == 9 {
        [0x06, 0x99, 0xC1, 0x44]
    } else {
        [0x95, 0xE0, 0x7D, 0x6C]
    };
    assert(t@ =~= spec_tag(i as int));
    t
}

/// Whether the bytes `uid` are exactly those of `t`.
fn same_bytes(t: &[u8; 4], uid: &[u8]) -> (r: bool)
    ensures
        r == (t@ == uid@),
{
    if uid.len() != 4 {
        return false;
    }
    let mut k: usize = 0;
    while k < 4
        invariant
            uid@.len() == 4,
            k <= 4,
            forall|j: int| 0 <= j < k ==> t@[j] == uid@[j],
        decreases 4 - k,
    {
        if t[k] != uid[k] {
            return false;
        }
        k = k + 1;
    }
    assert(t@ =~= uid@);
    true
}

/// The folder selected by the identifier `uid`: the folder of the position at which
/// it is listed among the known tags, or `None` when it is not listed.
pub open spec fn spec_folder_selection(uid: Seq<u8>) -> Option<usize> {
    if exists|i: int| 0 <= i < NUMBER_TAGS && #[trigger] spec_tag(i) == uid {
        let i = choose|i: int| 0 <= i < NUMBER_TAGS && #[trigger] spec_tag(i) == uid;
        Some(spec_folder_of_position(i) as usize)
    } else {
        None
    }
}

/// No two known tags share an identifier.
pub proof fn lemma_tags_distinct(i: int, j: int)
    requires
        0 <= i < NUMBER_TAGS,
        0 <= j < NUMBER_TAGS,
        i != j,
    ensures
        spec_tag(i) != spec_tag(j),
{
    if spec_tag(i) == spec_tag(j) {
        assert(spec_tag(i)[0] == spec_tag(j)[0]);
        assert(spec_tag(i)[1] == spec_tag(j)[1]);
    }
}

/// If a known tag is found, return its folder, otherwise `None`.
pub fn folder_selection(uid: &[u8]) -> (r: Option<usize>)
    ensures
        r == spec_folder_selection(uid@),
{
    let mut ind: usize = 0;
    while ind < NUMBER_TAGS
        invariant
            ind <= NUMBER_TAGS,
            forall|j: int| 0 <= j < ind ==> #[trigger] spec_tag(j) != uid@,
        decreases NUMBER_TAGS - ind,
    {
        let val = tag(ind);
        if same_bytes(&val, uid) {
            proof {
                let c = choose|i: int| 0 <= i < NUMBER_TAGS && #[trigger] spec_tag(i) == uid@;
                if c != ind as int {
                    lemma_tags_distinct(c, ind as int);
                }
            }
            return Some(ind % NUMBER_UNIQUE_TAGS + 1);
        }
        ind = ind + 1;
    }
    None
}

/// The known tag at position `i` selects the folder `i % NUMBER_UNIQUE_TAGS + 1`,
/// so the tags after the unique ones wrap around to the first folders.
pub proof fn lemma_known_tag_selects_its_folder(i: int)
    requires
        0 <= i < NUMBER_TAGS,
    ensures
        spec_folder_selection(spec_tag(i)) == Some(spec_folder_of_position(i) as usize),
{
    let c = choose|k: int| 0 <= k < NUMBER_TAGS && #[trigger] spec_tag(k) == spec_tag(i);
    if c != i {
        lemma_tags_distinct(c, i);
    }
}

/// Every selected folder lies between 1 and `NUMBER_UNIQUE_TAGS`.
pub proof fn lemma_selected_folder_in_range(uid: Seq<u8>)
    ensures
        spec_folder_selection(uid) matches Some(folder) ==> 1 <= folder <= NUMBER_UNIQUE_TAGS,
{
}

/// An identifier that is not four bytes long selects no folder.
pub proof fn lemma_wrong_length_selects_nothing(uid: Seq<u8>)
    requires
        uid.len() != 4,
    ensures
        spec_folder_selection(uid) == None::<usize>,
{
    assert forall|i: int| 0 <= i < NUMBER_TAGS implies #[trigger] spec_tag(i) != uid by {
        assert(spec_tag(i).len() == 4);
    }
}

} // verus!
