use txscan::scan::check_transaction_for_messages;
use txscan::tx::{ScriptPubKey, ScriptSig, Transaction, Vin, Vout};

fn empty_tx() -> Transaction {
    Transaction {
        hash: String::from("abc123"),
        hex: None,
        vin: Vec::new(),
        vout: Vec::new(),
    }
}

fn coinbase_vin(hex: &str) -> Vin {
    Vin {
        coinbase: Some(String::from(hex)),
        txid: None,
        vout: None,
        script_sig: None,
        sequence: None,
    }
}

fn script_sig_vin(hex: &str) -> Vin {
    Vin {
        coinbase: None,
        txid: Some(String::from("feed")),
        vout: Some(0),
        script_sig: Some(ScriptSig {
            disassembly: None,
            hex: Some(String::from(hex)),
        }),
        sequence: Some(4294967295),
    }
}

fn script_vout(hex: &str, script_type: Option<&str>) -> Vout {
    Vout {
        value: Some(0),
        n: Some(0),
        script_pub_key: Some(ScriptPubKey {
            disassembly: None,
            hex: Some(String::from(hex)),
            script_type: script_type.map(String::from),
        }),
    }
}

#[test]
fn coinbase_hello() {
    let mut tx = empty_tx();
    tx.vin.push(coinbase_vin("48656c6c6f"));
    let messages = check_transaction_for_messages(&tx);
    assert_eq!(messages, vec![String::from("Coinbase: Hello")]);
}

#[test]
fn nulldata_yields_op_return_label() {
    let mut tx = empty_tx();
    tx.vout.push(script_vout("5465737431323334", Some("nulldata")));
    let messages = check_transaction_for_messages(&tx);
    assert_eq!(messages, vec![String::from("OP_RETURN: Test1234")]);
}

#[test]
fn other_classification_yields_script_pub_key_label() {
    let mut tx = empty_tx();
    tx.vout.push(script_vout("5465737431323334", Some("pubkeyhash")));
    let messages = check_transaction_for_messages(&tx);
    assert_eq!(messages, vec![String::from("ScriptPubKey: Test1234")]);
}

#[test]
fn missing_classification_yields_script_pub_key_label() {
    let mut tx = empty_tx();
    tx.vout.push(script_vout("5465737431323334", None));
    let messages = check_transaction_for_messages(&tx);
    assert_eq!(messages, vec![String::from("ScriptPubKey: Test1234")]);
}

#[test]
fn script_sig_message() {
    let mut tx = empty_tx();
    tx.vin.push(script_sig_vin("48692100"));
    assert_eq!(check_transaction_for_messages(&tx), Vec::<String>::new());
    tx.vin.clear();
    tx.vin.push(script_sig_vin("486921"));
    assert_eq!(
        check_transaction_for_messages(&tx),
        vec![String::from("ScriptSig: Hi!")]
    );
}

#[test]
fn no_hex_fields_yields_empty_sequence() {
    let mut tx = empty_tx();
    tx.vin.push(Vin {
        coinbase: None,
        txid: Some(String::from("feed")),
        vout: Some(1),
        script_sig: None,
        sequence: None,
    });
    tx.vin.push(Vin {
        coinbase: None,
        txid: Some(String::from("f00d")),
        vout: Some(0),
        script_sig: Some(ScriptSig {
            disassembly: Some(String::from("OP_DUP")),
            hex: None,
        }),
        sequence: Some(0),
    });
    tx.vout.push(Vout {
        value: Some(5000),
        n: Some(0),
        script_pub_key: None,
    });
    tx.vout.push(Vout {
        value: Some(0),
        n: Some(1),
        script_pub_key: Some(ScriptPubKey {
            disassembly: Some(String::from("OP_RETURN")),
            hex: None,
            script_type: Some(String::from("nulldata")),
        }),
    });
    assert_eq!(check_transaction_for_messages(&tx), Vec::<String>::new());
}

#[test]
fn ordering_inputs_before_outputs_in_field_order() {
    let mut tx = empty_tx();
    // Two qualifying inputs and two qualifying outputs, plus one
    // non-qualifying field in between, to pin the scan order.
    tx.vin.push(coinbase_vin("4669727374")); // "First"
    tx.vin.push(script_sig_vin("00")); // control byte: no message
    tx.vin.push(script_sig_vin("5365636f6e64")); // "Second"
    tx.vout.push(script_vout("5468697264", Some("nulldata"))); // "Third"
    tx.vout.push(script_vout("466f75727468", Some("pubkeyhash"))); // "Fourth"
    let messages = check_transaction_for_messages(&tx);
    assert_eq!(
        messages,
        vec![
            String::from("Coinbase: First"),
            String::from("ScriptSig: Second"),
            String::from("OP_RETURN: Third"),
            String::from("ScriptPubKey: Fourth"),
        ]
    );
}

#[test]
fn coinbase_and_script_sig_on_one_input() {
    let mut tx = empty_tx();
    tx.vin.push(Vin {
        coinbase: Some(String::from("4869")), // "Hi"
        txid: None,
        vout: None,
        script_sig: Some(ScriptSig {
            disassembly: None,
            hex: Some(String::from("596f")), // "Yo"
        }),
        sequence: None,
    });
    assert_eq!(
        check_transaction_for_messages(&tx),
        vec![String::from("Coinbase: Hi"), String::from("ScriptSig: Yo")]
    );
}

#[test]
fn empty_coinbase_hex_surfaces_empty_message() {
    let mut tx = empty_tx();
    tx.vin.push(coinbase_vin(""));
    assert_eq!(
        check_transaction_for_messages(&tx),
        vec![String::from("Coinbase: ")]
    );
}

#[test]
fn invalid_hex_on_every_field_yields_nothing() {
    let mut tx = empty_tx();
    tx.vin.push(coinbase_vin("xyz"));
    tx.vin.push(script_sig_vin("123"));
    tx.vout.push(script_vout("zz", Some("nulldata")));
    assert_eq!(check_transaction_for_messages(&tx), Vec::<String>::new());
}
