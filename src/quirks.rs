//! Named exceptions to the naming conventions of the wire protocols, kept as
//! data so that they can be read and extended apart from the generators.

use vstd::prelude::*;
use crate::text::{opt_view, str_eq, views};

verus! {

pub open spec fn pairs_view(v: Seq<(String, String)>) -> Seq<(Seq<char>, Seq<char>)> {
    v.map_values(|p: (String, String)| (p.0@, p.1@))
}

pub open spec fn triples_view(v: Seq<(String, String, String)>) -> Seq<
    (Seq<char>, Seq<char>, Seq<char>),
> {
    v.map_values(|p: (String, String, String)| (p.0@, p.1@, p.2@))
}

/// The value of the first entry whose key is `k`.
pub open spec fn lookup(t: Seq<(Seq<char>, Seq<char>)>, k: Seq<char>) -> Option<Seq<char>>
    decreases t.len(),
{
    if t.len() == 0 {
        None
    } else if t[0].0 == k {
        Some(t[0].1)
    } else {
        lookup(t.drop_first(), k)
    }
}

/// The value of the first entry whose two keys are `k1` and `k2`.
pub open spec fn lookup2(t: Seq<(Seq<char>, Seq<char>, Seq<char>)>, k1: Seq<char>, k2: Seq<char>) -> Option<
    Seq<char>,
>
    decreases t.len(),
{
    if t.len() == 0 {
        None
    } else if t[0].0 == k1 && t[0].1 == k2 {
        Some(t[0].2)
    } else {
        lookup2(t.drop_first(), k1, k2)
    }
}

/// Query protocol: root tags of responses that do not follow the
/// "Result" to "Response" convention, keyed by the conventional name.
pub open spec fn ec2_root_tags_spec() -> Seq<(Seq<char>, Seq<char>)> {
    seq![
        ("Snapshot"@, "CreateSnapshotResponse"@),
        ("Volume"@, "CreateVolumeResponse"@),
        ("KeyPair"@, "CreateKeyPairResponse"@),
        ("InstanceAttribute"@, "DescribeInstanceAttributeResponse"@),
        ("Reservation"@, "RunInstancesResponse"@),
    ]
}

/// Query protocol: root tags of an output shape that several operations
/// share, keyed by the conventional name and the operation.
pub open spec fn ec2_operation_root_tags_spec() -> Seq<(Seq<char>, Seq<char>, Seq<char>)> {
    seq![
        ("VolumeAttachment"@, "DetachVolume"@, "DetachVolumeResponse"@),
        ("VolumeAttachment"@, "AttachVolume"@, "AttachVolumeResponse"@),
    ]
}

/// Query protocol: shapes named like requests that responses carry, and so
/// need a deserializer.
pub open spec fn ec2_deserialized_requests_spec() -> Seq<Seq<char>> {
    seq!["CancelledSpotInstanceRequest"@, "PurchaseRequest"@, "SpotInstanceRequest"@]
}

/// REST protocol: root tags of responses that the shape's name does not give.
pub open spec fn rest_xml_root_tags_spec() -> Seq<(Seq<char>, Seq<char>)> {
    seq![("ListBucketsOutput"@, "ListAllMyBucketsResult"@)]
}

/// REST protocol: shapes named like requests that still travel as XML.
pub open spec fn rest_xml_xml_requests_spec() -> Seq<Seq<char>> {
    seq!["RestoreRequest"@]
}

/// REST protocol: generated type names that differ from the shape's name.
pub open spec fn rest_xml_type_renames_spec() -> Seq<(Seq<char>, Seq<char>)> {
    seq![("Error"@, "S3Error"@)]
}

fn pair(a: &str, b: &str) -> (r: (String, String))
    ensures
        r.0@ == a@,
        r.1@ == b@,
{
    (String::from_str(a), String::from_str(b))
}

fn triple(a: &str, b: &str, c: &str) -> (r: (String, String, String))
    ensures
        r.0@ == a@,
        r.1@ == b@,
        r.2@ == c@,
{
    (String::from_str(a), String::from_str(b), String::from_str(c))
}

pub fn ec2_root_tags() -> (r: Vec<(String, String)>)
    ensures
        pairs_view(r@) == ec2_root_tags_spec(),
{
    let r = vec![
        pair("Snapshot", "CreateSnapshotResponse"),
        pair("Volume", "CreateVolumeResponse"),
        pair("KeyPair", "CreateKeyPairResponse"),
        pair("InstanceAttribute", "DescribeInstanceAttributeResponse"),
        pair("Reservation", "RunInstancesResponse"),
    ];
    assert(pairs_view(r@) =~= ec2_root_tags_spec());
    r
}

pub fn ec2_operation_root_tags() -> (r: Vec<(String, String, String)>)
    ensures
        triples_view(r@) == ec2_operation_root_tags_spec(),
{
    let r = vec![
        triple("VolumeAttachment", "DetachVolume", "DetachVolumeResponse"),
        triple("VolumeAttachment", "AttachVolume", "AttachVolumeResponse"),
    ];
    assert(triples_view(r@) =~= ec2_operation_root_tags_spec());
    r
}

pub fn ec2_deserialized_requests() -> (r: Vec<String>)
    ensures
        views(r@) == ec2_deserialized_requests_spec(),
{
    let r = vec![
        String::from_str("CancelledSpotInstanceRequest"),
        String::from_str("PurchaseRequest"),
        String::from_str("SpotInstanceRequest"),
    ];
    assert(views(r@) =~= ec2_deserialized_requests_spec());
    r
}

pub fn rest_xml_root_tags() -> (r: Vec<(String, String)>)
    ensures
        pairs_view(r@) == rest_xml_root_tags_spec(),
{
    let r = vec![pair("ListBucketsOutput", "ListAllMyBucketsResult")];
    assert(pairs_view(r@) =~= rest_xml_root_tags_spec());
    r
}

pub fn rest_xml_xml_requests() -> (r: Vec<String>)
    ensures
        views(r@) == rest_xml_xml_requests_spec(),
{
    let r = vec![String::from_str("RestoreRequest")];
    assert(views(r@) =~= rest_xml_xml_requests_spec());
    r
}

pub fn rest_xml_type_renames() -> (r: Vec<(String, String)>)
    ensures
        pairs_view(r@) == rest_xml_type_renames_spec(),
{
    let r = vec![pair("Error", "S3Error")];
    assert(pairs_view(r@) =~= rest_xml_type_renames_spec());
    r
}

/// The value of the first entry whose key is `k`.
pub fn lookup_tag(t: &Vec<(String, String)>, k: &str) -> (r: Option<String>)
    ensures
        opt_view(r) == lookup(pairs_view(t@), k@),
{
    let ghost tv = pairs_view(t@);
    let mut i: usize = 0;
    assert(tv.skip(0) =~= tv);
    while i < t.len()
        invariant
            0 <= i <= t.len(),
            tv == pairs_view(t@),
            lookup(tv, k@) == lookup(tv.skip(i as int), k@),
        decreases t.len() - i,
    {
        assert(tv.skip(i as int).drop_first() =~= tv.skip(i + 1));
        assert(tv.skip(i as int)[0] == (t[i as int].0@, t[i as int].1@));
        if str_eq(t[i].0.as_str(), k) {
            return Some(t[i].1.clone());
        }
        i += 1;
    }
    None
}

/// The value of the first entry whose two keys are `k1` and `k2`.
pub fn lookup_tag2(t: &Vec<(String, String, String)>, k1: &str, k2: &str) -> (r: Option<String>)
    ensures
        opt_view(r) == lookup2(triples_view(t@), k1@, k2@),
{
    let ghost tv = triples_view(t@);
    let mut i: usize = 0;
    assert(tv.skip(0) =~= tv);
    while i < t.len()
        invariant
            0 <= i <= t.len(),
            tv == triples_view(t@),
            lookup2(tv, k1@, k2@) == lookup2(tv.skip(i as int), k1@, k2@),
        decreases t.len() - i,
    {
        assert(tv.skip(i as int).drop_first() =~= tv.skip(i + 1));
        assert(tv.skip(i as int)[0] == (t[i as int].0@, t[i as int].1@, t[i as int].2@));
        if str_eq(t[i].0.as_str(), k1) && str_eq(t[i].1.as_str(), k2) {
            return Some(t[i].2.clone());
        }
        i += 1;
    }
    None
}

/// Whether `k` is one of the names.
pub fn is_listed(t: &Vec<String>, k: &str) -> (r: bool)
    ensures
        r == views(t@).contains(k@),
{
    let mut i: usize = 0;
    while i < t.len()
        invariant
            0 <= i <= t.len(),
            forall|j: int| 0 <= j < i ==> t[j]@ != k@,
        decreases t.len() - i,
    {
        if str_eq(t[i].as_str(), k) {
            assert(views(t@)[i as int] == k@);
            return true;
        }
        i += 1;
    }
    assert(!views(t@).contains(k@)) by {
        if views(t@).contains(k@) {
            let j = choose|j: int| 0 <= j < views(t@).len() && views(t@)[j] == k@;
            assert(t[j]@ == k@);
        }
    }
    false
}

} // verus!
