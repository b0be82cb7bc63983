use embedded_graphics::geometry::{OriginDimensions, Point as DisplayPoint};
use embedded_graphics::image::GetPixel;
use embedded_graphics::pixelcolor::{IntoStorage, Rgb565};
use gopherbadge::bitmap::Bitmap;
use gopherbadge::decode::{assemble, color_count_readable, read_pixels};
use gopherbadge::geometry::Point;
use tinybmp::Bmp;

/// A 24-bit file; `rows` are given from the top, each pixel as red, green, blue.
fn bmp_file(width: u32, height: u32, rows: &[Vec<(u8, u8, u8)>]) -> Vec<u8> {
    let row_bytes = ((width * 3 + 3) / 4 * 4) as usize;
    let data_len = row_bytes * height as usize;
    let mut file = Vec::new();
    file.extend_from_slice(b"BM");
    file.extend_from_slice(&((54 + data_len) as u32).to_le_bytes());
    file.extend_from_slice(&[0, 0, 0, 0]);
    file.extend_from_slice(&54u32.to_le_bytes());
    file.extend_from_slice(&40u32.to_le_bytes());
    file.extend_from_slice(&(width as i32).to_le_bytes());
    file.extend_from_slice(&(height as i32).to_le_bytes());
    file.extend_from_slice(&1u16.to_le_bytes());
    file.extend_from_slice(&24u16.to_le_bytes());
    file.extend_from_slice(&0u32.to_le_bytes());
    file.extend_from_slice(&(data_len as u32).to_le_bytes());
    file.extend_from_slice(&2835u32.to_le_bytes());
    file.extend_from_slice(&2835u32.to_le_bytes());
    file.extend_from_slice(&0u32.to_le_bytes());
    file.extend_from_slice(&0u32.to_le_bytes());
    for row in rows.iter().rev() {
        let mut bytes = Vec::new();
        for (r, g, b) in row {
            bytes.extend_from_slice(&[*b, *g, *r]);
        }
        bytes.resize(row_bytes, 0);
        file.extend_from_slice(&bytes);
    }
    file
}

#[test]
fn file_is_read_from_the_top_left() {
    let file = bmp_file(
        2,
        2,
        &[vec![(255, 0, 0), (0, 255, 0)], vec![(0, 0, 255), (255, 255, 255)]],
    );
    let bitmap = Bitmap::from_bmp(&file).unwrap();
    assert_eq!(bitmap.width, 2);
    assert_eq!(bitmap.height, 2);
    assert_eq!(bitmap.pixels, vec![0xf800, 0x07e0, 0x001f, 0xffff]);
    assert_eq!(bitmap.pixel(Point::new(1, 0)), Some(0x07e0));
}

#[test]
fn file_is_read_as_the_parser_reads_it() {
    let rows: Vec<Vec<(u8, u8, u8)>> = (0..5u32)
        .map(|y| (0..7u32).map(|x| ((x * 36) as u8, (y * 50) as u8, (x * y * 7) as u8)).collect())
        .collect();
    let file = bmp_file(7, 5, &rows);
    let bitmap = Bitmap::from_bmp(&file).unwrap();
    let parsed = Bmp::<Rgb565>::from_slice(&file).unwrap();
    assert_eq!(parsed.size().width, bitmap.width);
    assert_eq!(parsed.size().height, bitmap.height);
    for y in 0..5 {
        for x in 0..7 {
            assert_eq!(
                bitmap.pixel(Point::new(x, y)),
                parsed.pixel(DisplayPoint::new(x, y)).map(|c| c.into_storage())
            );
        }
    }
    let readings = read_pixels(&file, 7, 5);
    assert_eq!(readings.len(), 35);
    assert_eq!(readings[8], Some(bitmap.pixels[8]));
}

#[test]
fn broken_files_are_refused() {
    assert!(Bitmap::from_bmp(&[]).is_none());
    assert!(Bitmap::from_bmp(b"not a bitmap at all, just some text to be refused").is_none());
    let mut file = bmp_file(2, 2, &[vec![(1, 2, 3), (4, 5, 6)], vec![(7, 8, 9), (1, 1, 1)]]);
    file[0] = b'X';
    assert!(Bitmap::from_bmp(&file).is_none());
    let whole = bmp_file(2, 2, &[vec![(1, 2, 3), (4, 5, 6)], vec![(7, 8, 9), (1, 1, 1)]]);
    assert!(Bitmap::from_bmp(&whole[..60]).is_none());
}

#[test]
fn files_beyond_the_largest_side_are_refused() {
    let mut file = bmp_file(1, 1, &[vec![(1, 2, 3)]]);
    file[18..22].copy_from_slice(&32768i32.to_le_bytes());
    assert!(Bitmap::from_bmp(&file).is_none());
}

#[test]
fn assemble_needs_every_reading() {
    let bitmap = assemble(2, 2, &vec![Some(1), Some(2), Some(3), Some(4)]).unwrap();
    assert_eq!(bitmap.pixels, vec![1, 2, 3, 4]);
    assert_eq!((bitmap.width, bitmap.height), (2, 2));
    assert!(assemble(2, 2, &vec![Some(1), None, Some(3), Some(4)]).is_none());
    assert!(assemble(2, 2, &vec![Some(1), Some(2), Some(3)]).is_none());
    assert!(assemble(0, 2, &vec![]).is_none());
    assert!(assemble(2, 0, &vec![]).is_none());
}

#[test]
fn colour_count_is_read_from_its_four_bytes() {
    assert!(color_count_readable(&[]));
    assert!(color_count_readable(&[0xff; 49]));
    let mut file = vec![0u8; 50];
    assert!(color_count_readable(&file));
    file[46..50].copy_from_slice(&0x3fff_ffffu32.to_le_bytes());
    assert!(color_count_readable(&file));
    file[46..50].copy_from_slice(&0x4000_0000u32.to_le_bytes());
    assert!(!color_count_readable(&file));
    file[46..50].copy_from_slice(&0xffff_ffffu32.to_le_bytes());
    assert!(!color_count_readable(&file));
    file[46..50].copy_from_slice(&0x0000_0100u32.to_le_bytes());
    assert!(color_count_readable(&file));
}

#[test]
fn files_with_a_colour_count_out_of_range_are_refused() {
    let mut file = bmp_file(1, 1, &[vec![(1, 2, 3)]]);
    assert!(Bitmap::from_bmp(&file).is_some());
    file[46..50].copy_from_slice(&0x4000_0001u32.to_le_bytes());
    assert!(Bitmap::from_bmp(&file).is_none());
}

#[test]
fn run_length_encoded_files_are_refused() {
    // an 8-bit file of one pixel, compressed: its pixel cannot be asked
    // for by its coordinates
    let mut file = Vec::new();
    file.extend_from_slice(b"BM");
    file.extend_from_slice(&(54u32 + 8 + 4).to_le_bytes());
    file.extend_from_slice(&[0, 0, 0, 0]);
    file.extend_from_slice(&(54u32 + 8).to_le_bytes());
    file.extend_from_slice(&40u32.to_le_bytes());
    file.extend_from_slice(&1i32.to_le_bytes());
    file.extend_from_slice(&1i32.to_le_bytes());
    file.extend_from_slice(&1u16.to_le_bytes());
    file.extend_from_slice(&8u16.to_le_bytes());
    file.extend_from_slice(&1u32.to_le_bytes());
    file.extend_from_slice(&4u32.to_le_bytes());
    file.extend_from_slice(&[0; 8]);
    file.extend_from_slice(&2u32.to_le_bytes());
    file.extend_from_slice(&0u32.to_le_bytes());
    file.extend_from_slice(&[0, 0, 0, 0, 255, 255, 255, 0]);
    file.extend_from_slice(&[1, 1, 0, 1]);
    assert!(Bmp::<Rgb565>::from_slice(&file).is_ok());
    assert!(Bitmap::from_bmp(&file).is_none());
}
