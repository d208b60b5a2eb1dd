use cybercook::crypto::AESDecrypt;
use cybercook::crypto::AESEncrypt;
use cybercook::crypto::EncryptMode;
use cybercook::editor::default_catalog;
use cybercook::editor::insertion_preview_index;
use cybercook::editor::CyberCook;
use cybercook::editor::DragSource;
use cybercook::editor::DropTarget;
use cybercook::editor::EditOp;
use cybercook::encoding::Base64Decoder;
use cybercook::encoding::Base64Encoder;
use cybercook::errors::ProcessError;
use cybercook::input::Argument;
use cybercook::input::InputType;
use cybercook::module::ModuleInstance;
use cybercook::pipeline::execute;

fn arg(value: &str, input_type: InputType) -> Argument {
    Argument { value: value.to_string(), input_type }
}

fn aes_encrypt(mode: EncryptMode, key: &str, iv: &str) -> AESEncrypt {
    AESEncrypt { id: 0, mode, key: arg(key, InputType::Text), iv: arg(iv, InputType::Text) }
}

fn aes_decrypt(mode: EncryptMode, key: &str, iv: &str) -> AESDecrypt {
    AESDecrypt { id: 1, mode, key: arg(key, InputType::Text), iv: arg(iv, InputType::Text) }
}

const IV16: &str = "0123456789abcdef";
const KEY16: &str = "YELLOW SUBMARINE";
const KEY24: &str = "YELLOW SUBMARINE24BYTES!";
const KEY32: &str = "YELLOW SUBMARINEYELLOW SUBMARINE";

#[test]
fn aes_cbc_round_trip_all_key_lengths() {
    for key in [KEY16, KEY24, KEY32] {
        let enc = aes_encrypt(EncryptMode::Cbc, key, IV16);
        let dec = aes_decrypt(EncryptMode::Cbc, key, IV16);
        for msg in [&b""[..], b"hi", b"exactly 16 bytes", b"something a fair bit longer than one block"] {
            let ct = enc.process(msg).unwrap();
            assert_ne!(ct, msg.to_vec());
            assert_eq!(ct.len(), (msg.len() / 16 + 1) * 16);
            assert_eq!(dec.process(&ct).unwrap(), msg.to_vec());
        }
    }
}

#[test]
fn aes_ecb_round_trip_all_key_lengths() {
    for key in [KEY16, KEY24, KEY32] {
        let enc = aes_encrypt(EncryptMode::Ecb, key, "");
        let dec = aes_decrypt(EncryptMode::Ecb, key, "");
        let msg = b"attack at dawn";
        let ct = enc.process(msg).unwrap();
        assert_ne!(ct, msg.to_vec());
        assert_eq!(dec.process(&ct).unwrap(), msg.to_vec());
    }
}

#[test]
fn aes_hex_key_matches_text_key() {
    // "YELLOW SUBMARINE" spelled as hex digits selects the same cipher.
    let enc_text = aes_encrypt(EncryptMode::Cbc, KEY16, IV16);
    let enc_hex = AESEncrypt {
        id: 0,
        mode: EncryptMode::Cbc,
        key: arg("59454c4c4f57205355424d4152494e45", InputType::Hex),
        iv: arg(IV16, InputType::Text),
    };
    assert_eq!(enc_text.process(b"hello").unwrap(), enc_hex.process(b"hello").unwrap());
}

#[test]
fn aes_fifteen_byte_key_fails_on_supported_modes() {
    let key15 = "123456789012345";
    for mode in [EncryptMode::Cbc, EncryptMode::Ecb] {
        let enc = aes_encrypt(mode, key15, IV16);
        assert_eq!(enc.process(b"data"), Err(ProcessError::InvalidKeyOrIvLength));
        let dec = aes_decrypt(mode, key15, IV16);
        assert_eq!(dec.process(b"data"), Err(ProcessError::InvalidKeyOrIvLength));
    }
}

#[test]
fn aes_cbc_requires_sixteen_byte_iv() {
    let enc = aes_encrypt(EncryptMode::Cbc, KEY16, "short iv");
    assert_eq!(enc.process(b"data"), Err(ProcessError::InvalidKeyOrIvLength));
}

#[test]
fn aes_unsupported_modes_fail_regardless_of_key() {
    for mode in [
        EncryptMode::Cfb,
        EncryptMode::Ofb,
        EncryptMode::Ctr,
        EncryptMode::CbcNoPadding,
        EncryptMode::EcbNoPadding,
    ] {
        // A valid key, an invalid key, and an undecodable key all fail the
        // same way: the mode is checked first.
        for key in [KEY16, "123456789012345"] {
            let enc = aes_encrypt(mode, key, IV16);
            assert_eq!(enc.process(b"data"), Err(ProcessError::UnsupportedMode));
            let dec = aes_decrypt(mode, key, IV16);
            assert_eq!(dec.process(b"data"), Err(ProcessError::UnsupportedMode));
        }
        let enc = AESEncrypt {
            id: 0,
            mode,
            key: arg("zz", InputType::Hex),
            iv: arg(IV16, InputType::Text),
        };
        assert_eq!(enc.process(b"data"), Err(ProcessError::UnsupportedMode));
    }
}

#[test]
fn aes_undecodable_key_fails_as_invalid_argument() {
    let enc = AESEncrypt {
        id: 0,
        mode: EncryptMode::Cbc,
        key: arg("zz", InputType::Hex),
        iv: arg(IV16, InputType::Text),
    };
    assert_eq!(enc.process(b"data"), Err(ProcessError::InvalidArgument));
}

#[test]
fn aes_decrypt_partial_block_fails_as_padding_error() {
    let dec = aes_decrypt(EncryptMode::Cbc, KEY16, IV16);
    assert_eq!(dec.process(b"12345"), Err(ProcessError::PaddingError));
}

#[test]
fn mode_labels() {
    assert_eq!(EncryptMode::Cbc.label(), "CBC");
    assert_eq!(EncryptMode::Cfb.label(), "CFB");
    assert_eq!(EncryptMode::Ofb.label(), "OFB");
    assert_eq!(EncryptMode::Ctr.label(), "CTR");
    assert_eq!(EncryptMode::Ecb.label(), "ECB");
    assert_eq!(EncryptMode::CbcNoPadding.label(), "CBC/NoPadding");
    assert_eq!(EncryptMode::EcbNoPadding.label(), "ECB/NoPadding");
    assert_eq!(EncryptMode::default(), EncryptMode::Cbc);
}

#[test]
fn pipeline_folds_in_order() {
    let recipe = vec![
        ModuleInstance::Base64Encoder(Base64Encoder { id: 0 }),
        ModuleInstance::Base64Encoder(Base64Encoder { id: 1 }),
    ];
    let out = execute(&recipe, &b"hi".to_vec()).unwrap();
    assert_eq!(out, b"YUdrPQ==".to_vec());
}

#[test]
fn pipeline_empty_recipe_passes_input_through() {
    let out = execute(&Vec::new(), &b"unchanged".to_vec()).unwrap();
    assert_eq!(out, b"unchanged".to_vec());
}

#[test]
fn pipeline_short_circuits_on_first_error() {
    // A decoder that fails first, then an AES decrypt that would also fail:
    // the reported error is the decoder's.
    let recipe = vec![
        ModuleInstance::Base64Decoder(Base64Decoder { id: 0 }),
        ModuleInstance::AESDecrypt(aes_decrypt(EncryptMode::Cbc, KEY16, IV16)),
    ];
    let err = execute(&recipe, &b"not base64 !!!".to_vec()).unwrap_err();
    assert_eq!(err, ProcessError::DecodeError);
}

#[test]
fn editor_output_shows_error_text_of_first_failure() {
    let mut cook = CyberCook::new(default_catalog());
    cook.set_input(b"not base64 !!!".to_vec());
    cook.issue_edit(EditOp::AppendFromCatalog { catalog_index: 1 });
    cook.issue_edit(EditOp::AppendFromCatalog { catalog_index: 3 });
    assert_eq!(cook.current_output(), b"Decode error".to_vec());
}

#[test]
fn editor_end_to_end_encode_hello() {
    let mut cook = CyberCook::new(default_catalog());
    cook.set_input(b"hello".to_vec());
    cook.issue_edit(EditOp::AppendFromCatalog { catalog_index: 0 });
    assert_eq!(cook.current_output(), b"aGVsbG8=".to_vec());
}

#[test]
fn editor_end_to_end_decode_hello() {
    let mut cook = CyberCook::new(default_catalog());
    cook.set_input(b"aGVsbG8=".to_vec());
    cook.issue_edit(EditOp::AppendFromCatalog { catalog_index: 1 });
    assert_eq!(cook.current_output(), b"hello".to_vec());
}

fn four_item_recipe() -> CyberCook {
    let mut cook = CyberCook::new(default_catalog());
    for _ in 0..4 {
        cook.issue_edit(EditOp::AppendFromCatalog { catalog_index: 0 });
    }
    cook
}

fn recipe_ids(cook: &CyberCook) -> Vec<u64> {
    cook.current_recipe().into_iter().map(|(id, _, _)| id).collect()
}

#[test]
fn editor_move_two_to_front() {
    let mut cook = four_item_recipe();
    let ids = recipe_ids(&cook);
    cook.issue_edit(EditOp::MoveWithinRecipe { from_index: 2, to_index: 0 });
    assert_eq!(recipe_ids(&cook), vec![ids[2], ids[0], ids[1], ids[3]]);
}

#[test]
fn editor_move_front_to_back() {
    let mut cook = four_item_recipe();
    let ids = recipe_ids(&cook);
    cook.issue_edit(EditOp::MoveWithinRecipe { from_index: 0, to_index: 3 });
    assert_eq!(recipe_ids(&cook), vec![ids[1], ids[2], ids[3], ids[0]]);
}

#[test]
fn editor_clones_get_fresh_identities() {
    let cook = four_item_recipe();
    let ids = recipe_ids(&cook);
    assert_eq!(ids.len(), 4);
    for i in 0..4 {
        for j in i + 1..4 {
            assert_ne!(ids[i], ids[j]);
        }
        // Distinct from every catalogue identity too.
        assert!(ids[i] >= 4);
    }
}

#[test]
fn editor_insert_and_remove() {
    let mut cook = CyberCook::new(default_catalog());
    cook.issue_edit(EditOp::AppendFromCatalog { catalog_index: 0 });
    cook.issue_edit(EditOp::InsertFromCatalog { catalog_index: 2, to_index: 0 });
    let recipe = cook.current_recipe();
    assert_eq!(recipe[0].1, "AES Encrypt".to_string());
    assert_eq!(recipe[1].1, "Base64 Encoder".to_string());
    cook.issue_edit(EditOp::RemoveFromRecipe { recipe_index: 0 });
    let recipe = cook.current_recipe();
    assert_eq!(recipe.len(), 1);
    assert_eq!(recipe[0].1, "Base64 Encoder".to_string());
    cook.issue_edit(EditOp::DeleteRecipeInstance { recipe_index: 0 });
    assert_eq!(cook.current_recipe().len(), 0);
}

#[test]
fn drop_past_itself_lands_directly_after_neighbour() {
    let mut cook = four_item_recipe();
    let ids = recipe_ids(&cook);
    // Raw drop index 2 with source 0: adjusted down by one, so the item
    // lands at index 1, directly after its old right neighbour.
    cook.apply_drop(DragSource::Recipe, 0, DropTarget::RecipeAt { raw_index: 2 });
    assert_eq!(recipe_ids(&cook), vec![ids[1], ids[0], ids[2], ids[3]]);
}

#[test]
fn drop_from_catalog_inserts_clone() {
    let mut cook = four_item_recipe();
    cook.apply_drop(DragSource::Catalog, 3, DropTarget::RecipeAt { raw_index: 1 });
    let recipe = cook.current_recipe();
    assert_eq!(recipe.len(), 5);
    assert_eq!(recipe[1].1, "AES Decrypt".to_string());
}

#[test]
fn drop_on_catalog_pane_deletes_recipe_instance() {
    let mut cook = four_item_recipe();
    let ids = recipe_ids(&cook);
    cook.apply_drop(DragSource::Recipe, 1, DropTarget::CatalogPane);
    assert_eq!(recipe_ids(&cook), vec![ids[0], ids[2], ids[3]]);
}

#[test]
fn drop_outside_appends_or_moves_to_end() {
    let mut cook = four_item_recipe();
    let ids = recipe_ids(&cook);
    cook.apply_drop(DragSource::Recipe, 0, DropTarget::Outside);
    assert_eq!(recipe_ids(&cook), vec![ids[1], ids[2], ids[3], ids[0]]);
    cook.apply_drop(DragSource::Catalog, 1, DropTarget::Outside);
    let recipe = cook.current_recipe();
    assert_eq!(recipe.len(), 5);
    assert_eq!(recipe[4].1, "Base64 Decoder".to_string());
}

#[test]
fn preview_index_follows_midpoint_rule() {
    assert_eq!(insertion_preview_index(3, true, false), 3);
    assert_eq!(insertion_preview_index(3, false, true), 3);
    assert_eq!(insertion_preview_index(3, false, false), 4);
}

#[test]
fn duplicate_resets_parameters_and_identity() {
    let configured = ModuleInstance::AESEncrypt(AESEncrypt {
        id: 7,
        mode: EncryptMode::Ecb,
        key: arg(KEY16, InputType::Text),
        iv: arg(IV16, InputType::Text),
    });
    let copy = configured.duplicate(9);
    assert_eq!(copy.id(), 9);
    match copy {
        ModuleInstance::AESEncrypt(inner) => {
            assert_eq!(inner.mode, EncryptMode::Cbc);
            assert_eq!(inner.key.value, String::new());
            assert_eq!(inner.iv.value, String::new());
        },
        _ => panic!("duplicate changed the module kind"),
    }
}

#[test]
fn module_names_and_descriptions() {
    let catalog = default_catalog();
    let names: Vec<&str> = catalog.iter().map(|m| m.name()).collect();
    assert_eq!(
        names,
        vec!["Base64 Encoder", "Base64 Decoder", "AES Encrypt", "AES Decrypt"]
    );
    assert_eq!(catalog[0].description(), "Encode input to Base64");
    assert_eq!(catalog[3].description(), "Decrypt input with AES");
    let ids: Vec<u64> = catalog.iter().map(|m| m.id()).collect();
    assert_eq!(ids, vec![0, 1, 2, 3]);
}

#[test]
fn set_module_edits_parameters_in_place() {
    let mut cook = CyberCook::new(default_catalog());
    cook.set_input(b"secret".to_vec());
    cook.issue_edit(EditOp::AppendFromCatalog { catalog_index: 2 });
    let id = cook.current_recipe()[0].0;
    cook.set_module(
        0,
        ModuleInstance::AESEncrypt(AESEncrypt {
            id,
            mode: EncryptMode::Cbc,
            key: arg(KEY16, InputType::Text),
            iv: arg(IV16, InputType::Text),
        }),
    );
    let direct = aes_encrypt(EncryptMode::Cbc, KEY16, IV16);
    assert_eq!(cook.current_output(), direct.process(b"secret").unwrap());
}
