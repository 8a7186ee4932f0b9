use qutyemu::instruction::{
    decode, encode, pattern_of, sign_extend12, sign_extend7, Instruction, KIND_UNDEF,
};

#[test]
fn decodes_fixed_words() {
    assert_eq!(decode(0x0000, 0), Instruction::NOP);
    assert_eq!(decode(0x9598, 0), Instruction::BREAK);
    assert_eq!(decode(0x9508, 0), Instruction::RET);
    assert_eq!(decode(0x9518, 0), Instruction::RETI);
    assert_eq!(decode(0x9509, 0), Instruction::ICALL);
    assert_eq!(decode(0x9409, 0), Instruction::IJMP);
    assert_eq!(decode(0x95C8, 0), Instruction::LPM);
    assert_eq!(decode(0x9588, 0), Instruction::SLEEP);
    assert_eq!(decode(0x95A8, 0), Instruction::WDR);
}

#[test]
fn decodes_two_register_words() {
    assert_eq!(decode(0x0C01, 0), Instruction::ADD { d: 0, r: 1 });
    assert_eq!(decode(0x0FFF, 0), Instruction::ADD { d: 31, r: 31 });
    assert_eq!(decode(0x1D23, 0), Instruction::ADC { d: 18, r: 3 });
    assert_eq!(decode(0x1F23, 0), Instruction::ADC { d: 18, r: 19 });
    assert_eq!(decode(0x2C12, 0), Instruction::MOV { d: 1, r: 2 });
    assert_eq!(decode(0x2411, 0), Instruction::EOR { d: 1, r: 1 });
    assert_eq!(decode(0x9C56, 0), Instruction::MUL { d: 5, r: 6 });
}

#[test]
fn restricted_register_sets_add_their_constants() {
    assert_eq!(decode(0xE0A5, 0), Instruction::LDI { d: 26, K: 0x05 });
    assert_eq!(decode(0xEF0F, 0), Instruction::LDI { d: 16, K: 0xFF });
    assert_eq!(decode(0x7F0F, 0), Instruction::ANDI { d: 16, K: 0xFF });
    assert_eq!(decode(0x6012, 0), Instruction::ORI { d: 17, K: 0x02 });
    assert_eq!(decode(0x3A15, 0), Instruction::CPI { d: 17, K: 0xA5 });
    assert_eq!(decode(0x9601, 0), Instruction::ADIW { d: 24, K: 1 });
    assert_eq!(decode(0x96FF, 0), Instruction::ADIW { d: 30, K: 63 });
    assert_eq!(decode(0x9711, 0), Instruction::SBIW { d: 26, K: 1 });
    assert_eq!(decode(0x01CE, 0), Instruction::MOVW { d: 24, r: 28 });
    assert_eq!(decode(0x0212, 0), Instruction::MULS { d: 17, r: 18 });
    assert_eq!(decode(0x0312, 0), Instruction::MULSU { d: 17, r: 18 });
    assert_eq!(decode(0x031A, 0), Instruction::FMUL { d: 17, r: 18 });
    assert_eq!(decode(0x0392, 0), Instruction::FMULS { d: 17, r: 18 });
    assert_eq!(decode(0x039A, 0), Instruction::FMULSU { d: 17, r: 18 });
}

#[test]
fn branch_offsets_are_sign_extended() {
    assert_eq!(decode(0xF409, 0), Instruction::BRBC { s: 1, k: 1 });
    assert_eq!(decode(0xF7F1, 0), Instruction::BRBC { s: 1, k: -2 });
    assert_eq!(decode(0xF1F8, 0), Instruction::BRBS { s: 0, k: 63 });
    assert_eq!(decode(0xF200, 0), Instruction::BRBS { s: 0, k: -64 });
    assert_eq!(decode(0xC000, 0), Instruction::RJMP { k: 0 });
    assert_eq!(decode(0xCFFF, 0), Instruction::RJMP { k: -1 });
    assert_eq!(decode(0xC7FF, 0), Instruction::RJMP { k: 2047 });
    assert_eq!(decode(0xC800, 0), Instruction::RJMP { k: -2048 });
    assert_eq!(decode(0xD002, 0), Instruction::RCALL { k: 2 });
    assert_eq!(decode(0xDFFE, 0), Instruction::RCALL { k: -2 });
}

#[test]
fn sign_extension_of_narrow_fields() {
    assert_eq!(sign_extend7(0), 0);
    assert_eq!(sign_extend7(63), 63);
    assert_eq!(sign_extend7(64), -64);
    assert_eq!(sign_extend7(127), -1);
    assert_eq!(sign_extend12(0), 0);
    assert_eq!(sign_extend12(2047), 2047);
    assert_eq!(sign_extend12(2048), -2048);
    assert_eq!(sign_extend12(4095), -1);
}

#[test]
fn two_word_instructions_take_the_second_word() {
    assert_eq!(decode(0x940E, 0x1234), Instruction::CALL { k: 0x1234 });
    assert_eq!(decode(0x940C, 0x0040), Instruction::JMP { k: 0x40 });
    assert_eq!(decode(0x95FF, 0xFFFF), Instruction::CALL { k: 0x3F_FFFF });
    assert_eq!(decode(0x9100, 0x3800), Instruction::LDS { d: 16, k: 0x3800 });
    assert_eq!(decode(0x9310, 0x0427), Instruction::STS { k: 0x0427, r: 17 });
    assert!(Instruction::CALL { k: 0 }.two_words());
    assert!(Instruction::JMP { k: 0 }.two_words());
    assert!(Instruction::LDS { d: 0, k: 0 }.two_words());
    assert!(Instruction::STS { k: 0, r: 0 }.two_words());
    assert!(!Instruction::NOP.two_words());
    assert!(!Instruction::RET.two_words());
}

#[test]
fn decodes_data_transfer_words() {
    assert_eq!(decode(0x900C, 0), Instruction::LDX { d: 0 });
    assert_eq!(decode(0x901D, 0), Instruction::LDXinc { d: 1 });
    assert_eq!(decode(0x902E, 0), Instruction::LDXdec { d: 2 });
    assert_eq!(decode(0x9039, 0), Instruction::LDYinc { d: 3 });
    assert_eq!(decode(0x904A, 0), Instruction::LDYdec { d: 4 });
    assert_eq!(decode(0x9051, 0), Instruction::LDZinc { d: 5 });
    assert_eq!(decode(0x9062, 0), Instruction::LDZdec { d: 6 });
    assert_eq!(decode(0x8008, 0), Instruction::LDDY { d: 0, q: 0 });
    assert_eq!(decode(0x8000, 0), Instruction::LDDZ { d: 0, q: 0 });
    assert_eq!(decode(0xAC1F, 0), Instruction::LDDY { d: 1, q: 63 });
    assert_eq!(decode(0x8201, 0), Instruction::STDZ { q: 1, r: 0 });
    assert_eq!(decode(0x8209, 0), Instruction::STDY { q: 1, r: 0 });
    assert_eq!(decode(0x920C, 0), Instruction::STX { r: 0 });
    assert_eq!(decode(0x921D, 0), Instruction::STXinc { r: 1 });
    assert_eq!(decode(0x922E, 0), Instruction::STXdec { r: 2 });
    assert_eq!(decode(0x900F, 0), Instruction::POP { d: 0 });
    assert_eq!(decode(0x93FF, 0), Instruction::PUSH { d: 31 });
    assert_eq!(decode(0x9004, 0), Instruction::LPMZ { d: 0 });
    assert_eq!(decode(0x9005, 0), Instruction::LPMZinc { d: 0 });
    assert_eq!(decode(0xB000, 0), Instruction::IN { d: 0, A: 0 });
    assert_eq!(decode(0xB7FF, 0), Instruction::IN { d: 31, A: 63 });
    assert_eq!(decode(0xBF0F, 0), Instruction::OUT { A: 0x3F, r: 16 });
}

#[test]
fn decodes_bit_words() {
    assert_eq!(decode(0x9408, 0), Instruction::BSET { s: 0 });
    assert_eq!(decode(0x9478, 0), Instruction::BSET { s: 7 });
    assert_eq!(decode(0x94F8, 0), Instruction::BCLR { s: 7 });
    assert_eq!(decode(0xF807, 0), Instruction::BLD { d: 0, b: 7 });
    assert_eq!(decode(0xFA13, 0), Instruction::BST { d: 1, b: 3 });
    assert_eq!(decode(0xFC00, 0), Instruction::SBRC { r: 0, b: 0 });
    assert_eq!(decode(0xFFF7, 0), Instruction::SBRS { r: 31, b: 7 });
    assert_eq!(decode(0x9A0D, 0), Instruction::SBI { A: 1, b: 5 });
    assert_eq!(decode(0x98FF, 0), Instruction::CBI { A: 31, b: 7 });
    assert_eq!(decode(0x9900, 0), Instruction::SBIC { A: 0, b: 0 });
    assert_eq!(decode(0x9B01, 0), Instruction::SBIS { A: 0, b: 1 });
    assert_eq!(decode(0x9405, 0), Instruction::ASR { d: 0 });
    assert_eq!(decode(0x9416, 0), Instruction::LSR { d: 1 });
    assert_eq!(decode(0x9427, 0), Instruction::ROR { d: 2 });
    assert_eq!(decode(0x9432, 0), Instruction::SWAP { d: 3 });
    assert_eq!(decode(0x9440, 0), Instruction::COM { d: 4 });
    assert_eq!(decode(0x9451, 0), Instruction::NEG { d: 5 });
    assert_eq!(decode(0x9463, 0), Instruction::INC { d: 6 });
    assert_eq!(decode(0x947A, 0), Instruction::DEC { d: 7 });
}

#[test]
fn unknown_words_are_undefined() {
    assert_eq!(decode(0xFFFF, 0), Instruction::UNDEF);
    assert_eq!(decode(0x0001, 0), Instruction::UNDEF);
    assert_eq!(decode(0x940B, 0), Instruction::UNDEF);
    assert_eq!(decode(0x9404, 0), Instruction::UNDEF);
    assert_eq!(pattern_of(0xFFFF), KIND_UNDEF);
    let mut undefined = 0usize;
    for word in 0..=0xFFFFu16 {
        if decode(word, 0) == Instruction::UNDEF {
            undefined += 1;
            assert_eq!(pattern_of(word), KIND_UNDEF);
        }
    }
    assert_eq!(undefined, 1767);
}

#[test]
fn encoding_inverts_decoding_on_every_defined_word() {
    for prefetch in [0x0000u16, 0xFFFF, 0x1234] {
        for word in 0..=0xFFFFu16 {
            let instruction = decode(word, prefetch);
            if instruction == Instruction::UNDEF {
                continue;
            }
            let (first, second) = encode(instruction);
            assert_eq!(first, word);
            if instruction.two_words() {
                assert_eq!(second, prefetch);
            } else {
                assert_eq!(second, 0);
            }
            assert_eq!(decode(first, second), instruction);
        }
    }
}

#[test]
fn decoding_inverts_encoding() {
    let samples = [
        Instruction::ADC { d: 31, r: 17 },
        Instruction::ADIW { d: 28, K: 42 },
        Instruction::SUBI { d: 16, K: 0x80 },
        Instruction::BRBS { s: 1, k: -64 },
        Instruction::BRBC { s: 7, k: 63 },
        Instruction::CALL { k: 0x20_0001 },
        Instruction::JMP { k: 0x3F_FFFF },
        Instruction::RJMP { k: -2048 },
        Instruction::RCALL { k: 2047 },
        Instruction::LDDY { d: 9, q: 33 },
        Instruction::STDZ { q: 63, r: 0 },
        Instruction::IN { d: 5, A: 0x3F },
        Instruction::OUT { A: 0x3D, r: 28 },
        Instruction::SBIS { A: 31, b: 7 },
        Instruction::MOVW { d: 30, r: 0 },
        Instruction::FMULSU { d: 23, r: 16 },
        Instruction::LDS { d: 31, k: 0xBEEF },
        Instruction::STS { k: 0x3FFF, r: 1 },
        Instruction::BREAK,
    ];
    for instruction in samples {
        let (first, second) = encode(instruction);
        assert_eq!(decode(first, second), instruction);
    }
    assert_eq!(encode(Instruction::ADD { d: 1, r: 2 }), (0x0C12, 0));
    assert_eq!(encode(Instruction::LDI { d: 16, K: 0xFF }), (0xEF0F, 0));
    assert_eq!(encode(Instruction::CALL { k: 0x1234 }), (0x940E, 0x1234));
    assert_eq!(encode(Instruction::UNDEF), (0xFFFF, 0));
}

#[test]
fn lsl_decodes_as_add_to_itself() {
    for d in 0..32u8 {
        let (first, second) = encode(Instruction::LSL { d });
        assert_eq!(encode(Instruction::ADD { d, r: d }), (first, second));
        assert_eq!(decode(first, second), Instruction::ADD { d, r: d });
    }
}
