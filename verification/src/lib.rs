//! Núcleo verificado de un punto de venta multi-sucursal: acceso por permiso y
//! alcance, catálogo, precios, caja, aprobaciones, inventario, etiquetado,
//! envíos y notificaciones, más las decisiones puras de la capa de datos.

pub mod acceso;
pub mod almacen;
pub mod aprobacion;
pub mod barcode;
pub mod caja;
pub mod codec;
pub mod envio;
pub mod error;
pub mod etiqueta;
pub mod externo;
pub mod folio;
pub mod gasto;
pub mod inventario;
pub mod notificacion;
pub mod precio;
pub mod producto;
pub mod sesion;
pub mod sucursal;
pub mod texto;
pub mod tiempo;
pub mod unidades;
pub mod usuario;
