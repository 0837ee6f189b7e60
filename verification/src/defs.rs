//! The definition repository: a fixed mapping from an optional
//! (major, minor) interpreter version to an embedded symbol-definition
//! document and its canonical file name.
//!
//! The documents themselves are opaque versioned blobs; nothing here ever
//! synthesizes their text.  The version-agnostic document describes the
//! stable ABI of the `python3.dll` forwarding library, the version-specific
//! ones the corresponding `python3y.dll`.

use vstd::prelude::*;

use crate::error::ErrorModel;
use crate::error::GenerationError;
use crate::text::decimal_of;

verus! {

/// The embedded version-agnostic symbol-definition document.
pub const DEF_DOC_ABI3: &'static str = "LIBRARY \"python3.dll\"\nEXPORTS\nPy_Initialize\nPy_Finalize\nPy_IsInitialized\nPyObject_Repr\nPyObject_Str\nPyObject_GetAttrString\nPyObject_SetAttrString\nPyObject_CallObject\nPyLong_FromLong\nPyLong_AsLong\nPyFloat_FromDouble\nPyUnicode_FromString\nPyTuple_New\nPyTuple_SetItem\nPyList_New\nPyList_Append\nPyDict_New\nPyDict_SetItemString\nPyModule_Create2\nPyModule_AddObject\nPyErr_Occurred\nPyErr_SetString\nPy_DecRef\nPy_IncRef\n";

/// The embedded document for interpreter version 3.7.
pub const DEF_DOC_37: &'static str = "LIBRARY \"python37.dll\"\nEXPORTS\nPy_Initialize\nPy_Finalize\nPy_IsInitialized\nPyObject_Repr\nPyObject_Str\nPyObject_GetAttrString\nPyObject_SetAttrString\nPyObject_CallObject\nPyLong_FromLong\nPyLong_AsLong\nPyFloat_FromDouble\nPyUnicode_FromString\nPyTuple_New\nPyTuple_SetItem\nPyList_New\nPyList_Append\nPyDict_New\nPyDict_SetItemString\nPyModule_Create2\nPyModule_AddObject\nPyErr_Occurred\nPyErr_SetString\nPy_DecRef\nPy_IncRef\nPyInterpreterState_GetID\n";

/// The embedded document for interpreter version 3.8.
pub const DEF_DOC_38: &'static str = "LIBRARY \"python38.dll\"\nEXPORTS\nPy_Initialize\nPy_Finalize\nPy_IsInitialized\nPyObject_Repr\nPyObject_Str\nPyObject_GetAttrString\nPyObject_SetAttrString\nPyObject_CallObject\nPyLong_FromLong\nPyLong_AsLong\nPyFloat_FromDouble\nPyUnicode_FromString\nPyTuple_New\nPyTuple_SetItem\nPyList_New\nPyList_Append\nPyDict_New\nPyDict_SetItemString\nPyModule_Create2\nPyModule_AddObject\nPyErr_Occurred\nPyErr_SetString\nPy_DecRef\nPy_IncRef\nPyInterpreterState_GetDict\n";

/// The embedded document for interpreter version 3.9.
pub const DEF_DOC_39: &'static str = "LIBRARY \"python39.dll\"\nEXPORTS\nPy_Initialize\nPy_Finalize\nPy_IsInitialized\nPyObject_Repr\nPyObject_Str\nPyObject_GetAttrString\nPyObject_SetAttrString\nPyObject_CallObject\nPyLong_FromLong\nPyLong_AsLong\nPyFloat_FromDouble\nPyUnicode_FromString\nPyTuple_New\nPyTuple_SetItem\nPyList_New\nPyList_Append\nPyDict_New\nPyDict_SetItemString\nPyModule_Create2\nPyModule_AddObject\nPyErr_Occurred\nPyErr_SetString\nPy_DecRef\nPy_IncRef\nPy_EnterRecursiveCall\nPy_LeaveRecursiveCall\n";

/// The embedded document for interpreter version 3.10.
pub const DEF_DOC_310: &'static str = "LIBRARY \"python310.dll\"\nEXPORTS\nPy_Initialize\nPy_Finalize\nPy_IsInitialized\nPyObject_Repr\nPyObject_Str\nPyObject_GetAttrString\nPyObject_SetAttrString\nPyObject_CallObject\nPyLong_FromLong\nPyLong_AsLong\nPyFloat_FromDouble\nPyUnicode_FromString\nPyTuple_New\nPyTuple_SetItem\nPyList_New\nPyList_Append\nPyDict_New\nPyDict_SetItemString\nPyModule_Create2\nPyModule_AddObject\nPyErr_Occurred\nPyErr_SetString\nPy_DecRef\nPy_IncRef\nPy_NewRef\nPy_XNewRef\nPyModule_AddType\n";

/// The embedded document for interpreter version 3.11.
pub const DEF_DOC_311: &'static str = "LIBRARY \"python311.dll\"\nEXPORTS\nPy_Initialize\nPy_Finalize\nPy_IsInitialized\nPyObject_Repr\nPyObject_Str\nPyObject_GetAttrString\nPyObject_SetAttrString\nPyObject_CallObject\nPyLong_FromLong\nPyLong_AsLong\nPyFloat_FromDouble\nPyUnicode_FromString\nPyTuple_New\nPyTuple_SetItem\nPyList_New\nPyList_Append\nPyDict_New\nPyDict_SetItemString\nPyModule_Create2\nPyModule_AddObject\nPyErr_Occurred\nPyErr_SetString\nPy_DecRef\nPy_IncRef\nPy_NewRef\nPy_XNewRef\nPyModule_AddType\nPyType_GetName\nPyType_GetQualName\n";

/// A symbol-definition document ready to be written out: its canonical file
/// name and its fixed text.
#[derive(Debug, Clone, Copy)]
pub struct DefinitionAsset {
    /// The canonical file name the document is written under.
    pub file_name: &'static str,
    /// The document text, fixed per version and never synthesized.
    pub content: &'static str,
}

/// The fixed supported set: the version-agnostic request, or a minor version
/// between 7 and 11 under major version 3.
pub open spec fn supported_version(v: Option<(u8, u8)>) -> bool {
    match v {
        None => true,
        Some((major, minor)) => major == 3 && 7 <= minor <= 11,
    }
}

/// The canonical definition file name: `python3.def` for the
/// version-agnostic document, else `python{major}{minor}.def`.
pub open spec fn spec_def_file_name(v: Option<(u8, u8)>) -> Seq<char> {
    match v {
        None => "python3.def"@,
        Some((major, minor)) => "python"@ + decimal_of(major as nat) + decimal_of(minor as nat)
            + ".def"@,
    }
}

/// The fixed document text of each supported version.
pub open spec fn spec_def_content(v: Option<(u8, u8)>) -> Seq<char> {
    match v {
        None => DEF_DOC_ABI3@,
        Some((3, 7)) => DEF_DOC_37@,
        Some((3, 8)) => DEF_DOC_38@,
        Some((3, 9)) => DEF_DOC_39@,
        Some((3, 10)) => DEF_DOC_310@,
        Some((3, 11)) => DEF_DOC_311@,
        Some(_) => Seq::empty(),
    }
}

/// Looks up the embedded definition document for the requested version.
///
/// Succeeds exactly on the fixed supported set; any other version fails with
/// `UnsupportedVersion` carrying the request for diagnostics.  Pure lookup,
/// no side effects.
pub fn lookup(version: &Option<(u8, u8)>) -> (r: Result<DefinitionAsset, GenerationError>)
    ensures
        r is Ok <==> supported_version(*version),
        r matches Ok(asset) ==> {
            &&& asset.file_name@ == spec_def_file_name(*version)
            &&& asset.content@ == spec_def_content(*version)
        },
        r matches Err(e) ==> (*version matches Some((major, minor)) && e@ == (
        ErrorModel::UnsupportedVersion { major, minor })),
{
    match version {
        None => Ok(
            DefinitionAsset { file_name: "python3.def", content: DEF_DOC_ABI3 },
        ),
        Some((3, 7)) => {
            proof {
                lemma_versioned_def_file_name("python37.def", 7);
            }
            Ok(DefinitionAsset { file_name: "python37.def", content: DEF_DOC_37 })
        },
        Some((3, 8)) => {
            proof {
                lemma_versioned_def_file_name("python38.def", 8);
            }
            Ok(DefinitionAsset { file_name: "python38.def", content: DEF_DOC_38 })
        },
        Some((3, 9)) => {
            proof {
                lemma_versioned_def_file_name("python39.def", 9);
            }
            Ok(DefinitionAsset { file_name: "python39.def", content: DEF_DOC_39 })
        },
        Some((3, 10)) => {
            proof {
                lemma_versioned_def_file_name("python310.def", 10);
            }
            Ok(DefinitionAsset { file_name: "python310.def", content: DEF_DOC_310 })
        },
        Some((3, 11)) => {
            proof {
                lemma_versioned_def_file_name("python311.def", 11);
            }
            Ok(DefinitionAsset { file_name: "python311.def", content: DEF_DOC_311 })
        },
        Some((major, minor)) => Err(
            GenerationError::UnsupportedVersion { major: *major, minor: *minor },
        ),
    }
}

/// The literal file names above spell out `python`, the version digits and
/// `.def`, which is what `spec_def_file_name` states abstractly.
proof fn lemma_versioned_def_file_name(name: &str, minor: u8)
    requires
        7 <= minor <= 11,
        minor == 7 ==> name@ == "python37.def"@,
        minor == 8 ==> name@ == "python38.def"@,
        minor == 9 ==> name@ == "python39.def"@,
        minor == 10 ==> name@ == "python310.def"@,
        minor == 11 ==> name@ == "python311.def"@,
    ensures
        name@ == spec_def_file_name(Some((3, minor))),
{
    reveal_strlit("python");
    reveal_strlit(".def");
    assert(decimal_of(3) =~= seq!['3']);
    if minor == 7 {
        reveal_strlit("python37.def");
        assert(decimal_of(7) =~= seq!['7']);
        assert(name@ =~= "python"@ + decimal_of(3) + decimal_of(7) + ".def"@);
    } else if minor == 8 {
        reveal_strlit("python38.def");
        assert(decimal_of(8) =~= seq!['8']);
        assert(name@ =~= "python"@ + decimal_of(3) + decimal_of(8) + ".def"@);
    } else if minor == 9 {
        reveal_strlit("python39.def");
        assert(decimal_of(9) =~= seq!['9']);
        assert(name@ =~= "python"@ + decimal_of(3) + decimal_of(9) + ".def"@);
    } else if minor == 10 {
        reveal_strlit("python310.def");
        assert(decimal_of(1) =~= seq!['1']);
        assert(decimal_of(10) =~= seq!['1', '0']);
        assert(name@ =~= "python"@ + decimal_of(3) + decimal_of(10) + ".def"@);
    } else {
        reveal_strlit("python311.def");
        assert(decimal_of(1) =~= seq!['1']);
        assert(decimal_of(11) =~= seq!['1', '1']);
        assert(name@ =~= "python"@ + decimal_of(3) + decimal_of(11) + ".def"@);
    }
}

} // verus!
